use cloudflare::endpoints::custom_hostname::hostname::{
    BundleMethod, CertificateCA, CreateCustomHostname, CreateCustomHostnameParams,
    CustomHostnameDetails,
    DomainValidationMethod, DomainValidationType, HostnameActivationStatus,
    HostnameSslProperties, ListCustomHostname, SslCertificateStatus, SslSettings,
};
use cloudflare::endpoints::dns::dns::{bucket_len, BatchDnsRecordsResponse, ListDnsRecordsParams};
use cloudflare::endpoints::email_routing::routing::{EmailRoutingStatus, RoutingSettings};
use cloudflare::endpoints::email_routing::rules::{
    Action, ActionType, CatchAllRoutingRule, Matcher, MatcherType, RoutingRule,
};
use cloudflare::endpoints::zones::setting::{ZoneSettingResponse, ZoneSettingValue};
use cloudflare::endpoints::zones::zone::{ListZonesParams, Owner, Status, Type, Zone};
use cloudflare::framework::decode::{DecodeError, Kind};
use cloudflare::framework::endpoint::{
    build_request, render_body, EndpointSpec, RequestBody, RequestError,
};
use cloudflare::framework::pairs::StringMap;
use cloudflare::framework::response::{decode_response, ApiFailure};
use cloudflare::framework::variant::TextEnum;
use cloudflare::framework::{BooleanValue, TlsVersion};
use cloudflare::json::{Json, Number};
use cloudflare::syntax::{parse_json, render_json};
use cloudflare::text::{decimal_text, str_eq};

fn payload<T: cloudflare::framework::decode::ApiResult>(result: &str) -> Result<T, ApiFailure> {
    let text = format!("{{\"success\":true,\"result\":{}}}", result);
    decode_response::<T>(text.as_bytes()).map(|s| s.result)
}

#[test]
fn zone_is_decoded_with_its_raw_parts() {
    let text = r##"{
        "id": "023e105f4ecef8ad9ca31a8372d0c353",
        "name": "example.com",
        "account": {"id": "acc", "name": "Example Account"},
        "activated_on": "2014-01-02T00:01:00.12345Z",
        "betas": ["one", "two"],
        "created_on": "2014-01-01T05:20:00.12345Z",
        "development_mode": -7200,
        "host": null,
        "meta": {"custom_certificate_quota": 1, "page_rule_quota": 100, "phishing_detected": false},
        "modified_on": "2014-01-01 05:20:00+00:00",
        "name_servers": ["tony.ns.cloudflare.com", "woz.ns.cloudflare.com"],
        "original_registrar": "GoDaddy",
        "owner": {"type": "user", "id": "7c5dae5552338874e5053f2534d2767a", "email": "user@example.com"},
        "paused": false,
        "permissions": ["#zone:read", "#zone:edit"],
        "plan": {"id": "free", "price": 12.5, "is_subscribed": true},
        "status": "active",
        "type": "full",
        "unknown_member": [1, 2, 3]
    }"##;
    let zone = payload::<Zone>(text).expect("zone");
    assert_eq!(zone.id, "023e105f4ecef8ad9ca31a8372d0c353");
    assert_eq!(zone.name, "example.com");
    assert_eq!(
        zone.account,
        Json::Object(vec![
            ("id".to_string(), Json::Text("acc".to_string())),
            ("name".to_string(), Json::Text("Example Account".to_string())),
        ])
    );
    assert_eq!(zone.activated_on.map(|t| t.seconds), Some(1388620860));
    assert_eq!(zone.betas, Some(vec!["one".to_string(), "two".to_string()]));
    assert_eq!(zone.development_mode, -7200);
    assert_eq!(zone.host, None);
    assert_eq!(zone.meta.page_rule_quota, 100);
    assert_eq!(zone.modified_on.seconds, 1388553600);
    assert_eq!(zone.modified_on.nanoseconds, 0);
    assert_eq!(zone.name_servers.len(), 2);
    assert_eq!(zone.original_dnshost, None);
    assert_eq!(zone.original_registrar, Some("GoDaddy".to_string()));
    assert_eq!(
        zone.owner,
        Owner::User {
            id: Some("7c5dae5552338874e5053f2534d2767a".to_string()),
            email: Some("user@example.com".to_string()),
        }
    );
    assert_eq!(
        zone.plan,
        Some(Json::Object(vec![
            ("id".to_string(), Json::Text("free".to_string())),
            ("price".to_string(), Json::Number(Number::Real("12.5".to_string()))),
            ("is_subscribed".to_string(), Json::Bool(true)),
        ]))
    );
    assert_eq!(zone.plan_pending, None);
    assert_eq!(zone.status, Status::Active);
    assert_eq!(zone.zone_type, Type::Full);
}

#[test]
fn owner_is_told_apart_by_its_type() {
    assert_eq!(
        payload::<Owner>(r#"{"type":"organization","id":"o","name":"Org"}"#),
        Ok(Owner::Organization { id: Some("o".to_string()), name: Some("Org".to_string()) })
    );
    assert_eq!(
        payload::<Owner>(r#"{"type":"user"}"#),
        Ok(Owner::User { id: None, email: None })
    );
    assert_eq!(
        payload::<Owner>(r#"{"type":"team","id":"o"}"#),
        Err(ApiFailure::Payload(DecodeError::UnknownDiscriminator(Json::Text("team".to_string()))))
    );
    assert_eq!(
        payload::<Owner>(r#"{"type":"user","email":7}"#),
        Err(ApiFailure::Payload(DecodeError::InvalidType(Kind::Text)))
    );
}

#[test]
fn numbers_are_held_to_their_range() {
    assert_eq!(
        payload::<RoutingRule>(r#"{"priority":4294967295}"#).map(|r| r.priority),
        Ok(Some(4294967295))
    );
    assert_eq!(
        payload::<RoutingRule>(r#"{"priority":4294967296}"#).map(|r| r.priority),
        Err(ApiFailure::Payload(DecodeError::InvalidType(Kind::Unsigned32)))
    );
    assert_eq!(
        payload::<RoutingRule>(r#"{"priority":-1}"#).map(|r| r.priority),
        Err(ApiFailure::Payload(DecodeError::InvalidType(Kind::Unsigned32)))
    );
    assert_eq!(
        payload::<RoutingRule>(r#"{"priority":1.5}"#).map(|r| r.priority),
        Err(ApiFailure::Payload(DecodeError::InvalidType(Kind::Unsigned32)))
    );
    assert_eq!(
        payload::<RoutingRule>(r#"{"priority":"1"}"#).map(|r| r.priority),
        Err(ApiFailure::Payload(DecodeError::InvalidType(Kind::Unsigned32)))
    );
}

#[test]
fn routing_rule_lists_default_to_empty() {
    let rule = payload::<RoutingRule>(r#"{"id":"r","enabled":true}"#).expect("rule");
    assert_eq!(rule.id, Some("r".to_string()));
    assert!(rule.actions.is_empty());
    assert!(rule.matchers.is_empty());
    assert_eq!(rule.enabled, Some(true));
    let rule = payload::<RoutingRule>(
        r#"{"actions":[{"type":"worker","value":["w1","w2"]},{"type":"drop"}],"matchers":[{"type":"all"}]}"#,
    )
    .expect("rule");
    assert_eq!(
        rule.actions,
        vec![
            Action {
                action_type: ActionType::Worker,
                value: Some(vec!["w1".to_string(), "w2".to_string()]),
            },
            Action { action_type: ActionType::Drop, value: None },
        ]
    );
    assert_eq!(rule.matchers, vec![Matcher { matcher_type: MatcherType::All, field: None, value: None }]);
    assert_eq!(
        payload::<RoutingRule>(r#"{"actions":null}"#).map(|r| r.id),
        Err(ApiFailure::Payload(DecodeError::InvalidType(Kind::List)))
    );
    assert_eq!(
        payload::<RoutingRule>(r#"{"actions":[{"value":[]}]}"#).map(|r| r.id),
        Err(ApiFailure::Payload(DecodeError::MissingField("type".to_string())))
    );
    let rule = payload::<CatchAllRoutingRule>(r#"{"actions":[{"type":"literal"}],"matchers":[{"type":"to"}]}"#)
        .expect("rule");
    assert_eq!(rule.actions.len(), 1);
    assert_eq!(rule.matchers.len(), 1);
}

#[test]
fn routing_status_takes_its_alias() {
    let settings = |status: &str| {
        payload::<RoutingSettings>(&format!(
            "{{\"id\":\"i\",\"enabled\":true,\"name\":\"n\",\"status\":\"{}\"}}",
            status
        ))
        .map(|s| s.status)
    };
    assert_eq!(settings("locked"), Ok(Some(EmailRoutingStatus::Locked)));
    assert_eq!(settings("misconfigured/locked"), Ok(Some(EmailRoutingStatus::Locked)));
    assert_eq!(settings("misconfigured"), Ok(Some(EmailRoutingStatus::Misconfigured)));
    assert_eq!(
        settings("Locked"),
        Err(ApiFailure::Payload(DecodeError::UnknownDiscriminator(Json::Text("Locked".to_string()))))
    );
    assert_eq!(EmailRoutingStatus::Locked.as_str(), "locked");
}

#[test]
fn zone_setting_response_keeps_any_number() {
    let r = payload::<ZoneSettingResponse>(
        r#"{"id":"min_tls_version","value":"1.2","editable":true,"modified_on":null,"time_remaining":12.5}"#,
    )
    .expect("setting");
    assert!(r.editable);
    assert_eq!(r.value, ZoneSettingValue::MinTlsVersion { value: TlsVersion::V1_2 });
    assert_eq!(r.modified_on, None);
    assert_eq!(r.enabled, None);
    assert_eq!(r.time_remaining, Some(Number::Real("12.5".to_string())));
    let r = payload::<ZoneSettingResponse>(
        r#"{"id":"always_use_https","value":"off","editable":false,"time_remaining":-3}"#,
    )
    .expect("setting");
    assert_eq!(r.value, ZoneSettingValue::AlwaysUseHttps { value: BooleanValue::Off });
    assert_eq!(r.time_remaining, Some(Number::NegInt(-3)));
    assert_eq!(
        payload::<ZoneSettingResponse>(r#"{"id":"always_use_https","value":"1.2","editable":false}"#)
            .map(|r| r.editable),
        Err(ApiFailure::Payload(DecodeError::UnknownDiscriminator(Json::Text("1.2".to_string()))))
    );
    assert_eq!(
        payload::<ZoneSettingResponse>(r#"{"id":"ssl","value":"on","editable":false}"#)
            .map(|r| r.editable),
        Err(ApiFailure::Payload(DecodeError::UnknownDiscriminator(Json::Text("ssl".to_string()))))
    );
}

#[test]
fn custom_hostname_is_decoded_in_depth() {
    let text = r#"{
        "id": "h1",
        "hostname": "app.example.com",
        "ssl": {
            "id": "s1",
            "bundle_method": "ubiquitous",
            "certificate_authority": "ssl_com",
            "method": "email",
            "settings": {"http2": "on", "min_tls_version": "1.0"},
            "status": "pending_validation",
            "type": "dv",
            "validation_errors": [{"message": "SERVFAIL"}, {}],
            "validation_records": [{"emails": ["a@example.com"], "txt_name": "_acme"}],
            "wildcard": false
        },
        "custom_metadata": {"tier": "gold", "region": "eu"},
        "status": "test_active_apex"
    }"#;
    let h = payload::<CustomHostnameDetails>(text).expect("hostname");
    assert_eq!(h.id, "h1");
    assert_eq!(h.ssl.bundle_method, Some(BundleMethod::Ubiquitous));
    assert_eq!(h.ssl.certificate_authority, Some(CertificateCA::SslCom));
    assert_eq!(h.ssl.method, Some(DomainValidationMethod::Email));
    assert_eq!(
        h.ssl.settings,
        Some(SslSettings {
            ciphers: vec![],
            early_hints: None,
            http2: Some(BooleanValue::On),
            min_tls_version: Some(TlsVersion::V1_0),
            tls_1_3: None,
        })
    );
    assert_eq!(h.ssl.status, Some(SslCertificateStatus::PendingValidation));
    assert_eq!(h.ssl.validation_type, Some(DomainValidationType::Dv));
    assert_eq!(h.ssl.validation_errors.len(), 2);
    assert_eq!(h.ssl.validation_errors[0].message, Some("SERVFAIL".to_string()));
    assert_eq!(h.ssl.validation_errors[1].message, None);
    assert_eq!(h.ssl.validation_records[0].emails, vec!["a@example.com".to_string()]);
    assert_eq!(h.ssl.hosts, Vec::<String>::new());
    assert_eq!(
        h.custom_metadata,
        StringMap {
            entries: vec![
                ("tier".to_string(), "gold".to_string()),
                ("region".to_string(), "eu".to_string()),
            ],
        }
    );
    assert_eq!(h.status, HostnameActivationStatus::TestActiveApex);
    assert!(h.verification_errors.is_empty());
    assert_eq!(
        payload::<CustomHostnameDetails>(
            r#"{"id":"h","hostname":"n","ssl":{},"custom_metadata":{"k":1},"status":"active"}"#
        )
        .map(|h| h.id),
        Err(ApiFailure::Payload(DecodeError::InvalidType(Kind::Text)))
    );
    let h = payload::<CustomHostnameDetails>(r#"{"id":"h","hostname":"n","ssl":{},"status":"active"}"#)
        .expect("hostname");
    assert!(h.custom_metadata.entries.is_empty());
}

#[test]
fn absent_buckets_hold_nothing() {
    let r = payload::<BatchDnsRecordsResponse>(r#"{"posts":[]}"#).expect("batch");
    assert_eq!(bucket_len(&r.posts), 0);
    assert_eq!(bucket_len(&r.deletes), 0);
    assert_eq!(r.deletes, None);
}

#[test]
fn values_can_be_copied() {
    let action = Action { action_type: ActionType::Worker, value: Some(vec!["w".to_string()]) };
    assert_eq!(action.clone(), action);
    let mut params = CreateCustomHostnameParams::default();
    params.hostname = "h".to_string();
    params.custom_metadata = Some(StringMap { entries: vec![("k".to_string(), "v".to_string())] });
    assert_eq!(params.clone(), params);
}

#[test]
fn defaults_are_empty() {
    let p = ListZonesParams::default();
    assert_eq!(p.name, None);
    assert_eq!(p.search_match, None);
    let p = ListDnsRecordsParams::default();
    assert_eq!(p.record_type, None);
    let p = CreateCustomHostnameParams::default();
    assert_eq!(p.hostname, "");
    assert_eq!(p.ssl, HostnameSslProperties::default());
    assert_eq!(p.ssl.validation_type, DomainValidationType::Dv);
    assert_eq!(p.custom_metadata, None);
    let e = ListCustomHostname::default();
    assert_eq!(e.zone_identifier, "");
    assert_eq!(e.path(), "zones//custom_hostnames");
    assert_eq!(e.query(), None);
    assert_eq!(Action::default(), Action { action_type: ActionType::Forward, value: None });
    assert_eq!(ActionType::default(), ActionType::Forward);
}

#[test]
fn a_body_that_cannot_be_written_is_reported() {
    let refused = "a number that is no integer or an object that repeats a name cannot be written";
    assert_eq!(
        render_body(&Json::Number(Number::Real("12.5".to_string()))),
        Err(RequestError::Serialization(refused.to_string()))
    );
    assert_eq!(
        render_body(&Json::List(vec![Json::Object(vec![
            ("a".to_string(), Json::Null),
            ("b".to_string(), Json::Null),
            ("a".to_string(), Json::Null),
        ])])),
        Err(RequestError::Serialization(refused.to_string()))
    );
    assert_eq!(
        render_json(&Json::Object(vec![(
            "deep".to_string(),
            Json::List(vec![Json::Number(Number::Real("1e3".to_string()))])
        )])),
        Err(refused.to_string())
    );
}

#[test]
fn a_map_that_repeats_a_name_cannot_be_sent() {
    let mut params = CreateCustomHostnameParams::default();
    params.custom_metadata = Some(StringMap {
        entries: vec![("k".to_string(), "1".to_string()), ("k".to_string(), "2".to_string())],
    });
    let e = CreateCustomHostname { zone_identifier: "z", params };
    assert!(matches!(e.body(), Err(RequestError::Serialization(_))));
    assert!(matches!(build_request(&e), Err(RequestError::Serialization(_))));
}

#[test]
fn values_are_written_as_json_text() {
    assert_eq!(
        render_body(&Json::List(vec![
            Json::Number(Number::NegInt(-4)),
            Json::Number(Number::NegInt(4)),
            Json::Number(Number::PosInt(18446744073709551615)),
            Json::Null,
            Json::Bool(false),
            Json::Text("a\nb \u{e9}".to_string()),
            Json::Object(vec![
                ("z".to_string(), Json::List(vec![])),
                ("a".to_string(), Json::Object(vec![])),
            ]),
        ])),
        Ok(Some(RequestBody::Json(
            "[-4,4,18446744073709551615,null,false,\"a\\nb \u{e9}\",{\"z\":[],\"a\":{}}]".to_string()
        )))
    );
}

#[test]
fn text_is_read_as_values() {
    assert_eq!(
        parse_json(br#" {"b": [1, -2, 3.50, 1e2, 18446744073709551615, -9223372036854775808], "a": {"x": null, "y": true, "z": "t"}} "#),
        Ok(Json::Object(vec![
            (
                "b".to_string(),
                Json::List(vec![
                    Json::Number(Number::PosInt(1)),
                    Json::Number(Number::NegInt(-2)),
                    Json::Number(Number::Real("3.5".to_string())),
                    Json::Number(Number::Real("100.0".to_string())),
                    Json::Number(Number::PosInt(18446744073709551615)),
                    Json::Number(Number::NegInt(-9223372036854775808)),
                ])
            ),
            (
                "a".to_string(),
                Json::Object(vec![
                    ("x".to_string(), Json::Null),
                    ("y".to_string(), Json::Bool(true)),
                    ("z".to_string(), Json::Text("t".to_string())),
                ])
            ),
        ]))
    );
    assert!(parse_json(b"{\"a\":}").is_err());
    assert!(parse_json(b"").is_err());
    assert!(parse_json(b"[1] 2").is_err());
    let text = br#"{"k":[{"n":-7,"t":"x"},[],{}]}"#;
    let value = parse_json(text).expect("value");
    assert_eq!(render_json(&value), Ok(String::from_utf8(text.to_vec()).expect("text")));
}

#[test]
fn lookups_and_copies_of_json() {
    let j = Json::Object(vec![
        ("a".to_string(), Json::Number(Number::PosInt(1))),
        ("b".to_string(), Json::List(vec![Json::Null, Json::Text("x".to_string())])),
        ("a".to_string(), Json::Number(Number::PosInt(2))),
    ]);
    assert_eq!(j.get("a"), Some(&Json::Number(Number::PosInt(1))));
    assert_eq!(j.get("c"), None);
    assert_eq!(Json::Null.get("a"), None);
    assert_eq!(j.duplicate(), j);
}

#[test]
fn decimal_digits_and_text_equality() {
    assert_eq!(decimal_text(0), "0");
    assert_eq!(decimal_text(9), "9");
    assert_eq!(decimal_text(10), "10");
    assert_eq!(decimal_text(18446744073709551615), "18446744073709551615");
    assert!(str_eq("caf\u{e9}", "caf\u{e9}"));
    assert!(!str_eq("cafe", "caf\u{e9}"));
    assert!(!str_eq("a", "ab"));
    assert!(str_eq("", ""));
}

#[test]
fn every_status_text_is_read_back() {
    let all = [
        HostnameActivationStatus::Active,
        HostnameActivationStatus::Pending,
        HostnameActivationStatus::ActiveRedeploying,
        HostnameActivationStatus::Moved,
        HostnameActivationStatus::PendingDeletion,
        HostnameActivationStatus::Deleted,
        HostnameActivationStatus::PendingBlocked,
        HostnameActivationStatus::PendingMigration,
        HostnameActivationStatus::PendingProvisioned,
        HostnameActivationStatus::TestPending,
        HostnameActivationStatus::TestActive,
        HostnameActivationStatus::TestActiveApex,
        HostnameActivationStatus::TestBlocked,
        HostnameActivationStatus::TestFailed,
        HostnameActivationStatus::Provisioned,
        HostnameActivationStatus::Blocked,
    ];
    for v in all {
        assert_eq!(HostnameActivationStatus::from_text(v.as_str()), Some(v));
    }
    assert_eq!(HostnameActivationStatus::TestActiveApex.as_str(), "test_active_apex");
    assert_eq!(SslCertificateStatus::InitializingTimedOut.as_str(), "initializing_timed_out");
    assert_eq!(SslCertificateStatus::from_text("holding_deployment"), Some(SslCertificateStatus::HoldingDeployment));
}
