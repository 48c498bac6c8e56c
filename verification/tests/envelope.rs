use cloudflare::endpoints::dns::dns::{
    BatchDnsRecordsResponse, DeleteDnsRecordResponse, DnsContent, DnsRecord,
};
use cloudflare::endpoints::email_routing::dns::RoutingSettingUnion;
use cloudflare::endpoints::zones::zone::ZoneIdentifier;
use cloudflare::framework::decode::{require_only, DecodeError, Kind};
use cloudflare::framework::response::{
    decode_response, read_exchange, ApiFailure, EnvelopeError, ErrorCode,
};
use cloudflare::json::{Json, Number};

fn record(id: &str, name: &str, kind: &str, content: &str) -> String {
    format!(
        "{{\"meta\":{{}},\"name\":\"{}\",\"ttl\":1,\"modified_on\":\"2014-01-01T05:20:00.12345Z\",\
         \"created_on\":\"2014-01-01T05:20:00Z\",\"proxiable\":true,\"type\":\"{}\",\
         \"content\":\"{}\",\"id\":\"{}\",\"proxied\":false}}",
        name, kind, content, id
    )
}

#[test]
fn success_envelope_gives_the_payload() {
    let bytes = br#"{"success":true,"result":{"id":"abc"},"errors":[],"messages":[]}"#;
    let r = decode_response::<DeleteDnsRecordResponse>(bytes);
    match r {
        Ok(s) => {
            assert_eq!(s.result.id, "abc");
            assert!(s.errors.is_empty());
            assert!(s.messages.is_empty());
            assert_eq!(s.result_info, None);
        }
        Err(e) => panic!("unexpected failure: {:?}", e),
    }
}

#[test]
fn failure_envelope_gives_every_error() {
    let bytes = br#"{"success":false,"result":null,"errors":[{"code":1003,"message":"Invalid zone"}],"messages":[]}"#;
    match decode_response::<DeleteDnsRecordResponse>(bytes) {
        Err(ApiFailure::Error(reported)) => {
            assert_eq!(reported.errors.len(), 1);
            assert_eq!(reported.errors[0].code, Some(ErrorCode::Number(Number::PosInt(1003))));
            assert_eq!(reported.errors[0].message, Some("Invalid zone".to_string()));
            assert!(reported.messages.is_empty());
        }
        other => panic!("unexpected outcome: {:?}", other),
    }
}

#[test]
fn failure_envelope_keeps_order_and_messages() {
    let bytes = br#"{"success":false,"errors":[{"code":"E1","message":"first"},{"code":7},{"message":"third"}],"messages":[{"message":"note"}]}"#;
    match decode_response::<DeleteDnsRecordResponse>(bytes) {
        Err(ApiFailure::Error(reported)) => {
            assert_eq!(reported.errors.len(), 3);
            assert_eq!(reported.errors[0].code, Some(ErrorCode::Text("E1".to_string())));
            assert_eq!(reported.errors[1].code, Some(ErrorCode::Number(Number::PosInt(7))));
            assert_eq!(reported.errors[1].message, None);
            assert_eq!(reported.errors[2].code, None);
            assert_eq!(reported.errors[2].message, Some("third".to_string()));
            assert_eq!(reported.messages.len(), 1);
            assert_eq!(reported.messages[0].message, Some("note".to_string()));
        }
        other => panic!("unexpected outcome: {:?}", other),
    }
}

#[test]
fn failure_without_errors_is_a_malformed_envelope() {
    let bytes = br#"{"success":false,"errors":[],"messages":[]}"#;
    assert_eq!(
        decode_response::<DeleteDnsRecordResponse>(bytes),
        Err(ApiFailure::Invalid(EnvelopeError::NoErrors))
    );
    let bytes = br#"{"success":false}"#;
    assert_eq!(
        decode_response::<DeleteDnsRecordResponse>(bytes),
        Err(ApiFailure::Invalid(EnvelopeError::NoErrors))
    );
}

#[test]
fn text_that_is_no_json_is_a_malformed_envelope() {
    match decode_response::<DeleteDnsRecordResponse>(b"<html>") {
        Err(ApiFailure::Invalid(EnvelopeError::Syntax(message))) => assert!(!message.is_empty()),
        other => panic!("unexpected outcome: {:?}", other),
    }
}

#[test]
fn envelope_without_success_is_malformed() {
    assert_eq!(
        decode_response::<DeleteDnsRecordResponse>(br#"{"result":{"id":"abc"}}"#),
        Err(ApiFailure::Invalid(EnvelopeError::MissingSuccess))
    );
    assert_eq!(
        decode_response::<DeleteDnsRecordResponse>(br#"{"success":"yes","result":{"id":"abc"}}"#),
        Err(ApiFailure::Invalid(EnvelopeError::MissingSuccess))
    );
    assert_eq!(
        decode_response::<DeleteDnsRecordResponse>(br#"[true]"#),
        Err(ApiFailure::Invalid(EnvelopeError::NotAnObject))
    );
}

#[test]
fn malformed_errors_and_messages_are_reported() {
    assert_eq!(
        decode_response::<DeleteDnsRecordResponse>(br#"{"success":false,"errors":"no"}"#),
        Err(ApiFailure::Invalid(EnvelopeError::Errors(DecodeError::InvalidType(Kind::List))))
    );
    assert_eq!(
        decode_response::<DeleteDnsRecordResponse>(
            br#"{"success":true,"result":{"id":"a"},"messages":[3]}"#
        ),
        Err(ApiFailure::Invalid(EnvelopeError::Messages(DecodeError::InvalidType(Kind::Object))))
    );
}

#[test]
fn payload_of_the_wrong_shape_is_a_payload_failure() {
    assert_eq!(
        decode_response::<DeleteDnsRecordResponse>(br#"{"success":true,"result":{"name":"abc"}}"#),
        Err(ApiFailure::Payload(DecodeError::MissingField("id".to_string())))
    );
    assert_eq!(
        decode_response::<DeleteDnsRecordResponse>(br#"{"success":true,"result":{"id":5}}"#),
        Err(ApiFailure::Payload(DecodeError::InvalidType(Kind::Text)))
    );
    assert_eq!(
        decode_response::<DeleteDnsRecordResponse>(br#"{"success":true,"result":null}"#),
        Err(ApiFailure::Payload(DecodeError::InvalidType(Kind::Object)))
    );
    assert_eq!(
        decode_response::<DeleteDnsRecordResponse>(br#"{"success":true}"#),
        Err(ApiFailure::Payload(DecodeError::InvalidType(Kind::Object)))
    );
}

#[test]
fn nullable_payload_takes_null_and_absence() {
    let r = decode_response::<Option<ZoneIdentifier>>(br#"{"success":true,"result":null}"#);
    assert_eq!(r.map(|s| s.result), Ok(None));
    let r = decode_response::<Option<ZoneIdentifier>>(br#"{"success":true}"#);
    assert_eq!(r.map(|s| s.result), Ok(None));
    let r = decode_response::<Option<ZoneIdentifier>>(br#"{"success":true,"result":{"id":"z"}}"#);
    assert_eq!(r.map(|s| s.result), Ok(Some(ZoneIdentifier { id: Some("z".to_string()) })));
}

#[test]
fn result_info_does_not_change_the_outcome() {
    let with = br#"{"success":true,"result":{"id":"abc"},"result_info":{"page":1,"per_page":20,"total_pages":5,"count":20,"total_count":100}}"#;
    let without = br#"{"success":true,"result":{"id":"abc"}}"#;
    let odd = br#"{"success":true,"result":{"id":"abc"},"result_info":"none"}"#;
    let a = decode_response::<DeleteDnsRecordResponse>(with).expect("success");
    let b = decode_response::<DeleteDnsRecordResponse>(without).expect("success");
    let c = decode_response::<DeleteDnsRecordResponse>(odd).expect("success");
    assert_eq!(a.result, b.result);
    assert_eq!(a.result, c.result);
    let page = a.pagination().expect("pagination");
    assert_eq!(page.page, Some(1));
    assert_eq!(page.per_page, Some(20));
    assert_eq!(page.total_pages, Some(5));
    assert_eq!(page.count, Some(20));
    assert_eq!(page.total_count, Some(100));
    assert_eq!(b.pagination(), None);
    assert_eq!(c.result_info, Some(Json::Text("none".to_string())));
    assert_eq!(c.pagination(), None);

    let failed_with = br#"{"success":false,"errors":[{"code":1}],"result_info":{"page":1}}"#;
    let failed_without = br#"{"success":false,"errors":[{"code":1}]}"#;
    assert!(matches!(
        decode_response::<DeleteDnsRecordResponse>(failed_with),
        Err(ApiFailure::Error(_))
    ));
    assert!(matches!(
        decode_response::<DeleteDnsRecordResponse>(failed_without),
        Err(ApiFailure::Error(_))
    ));
}

#[test]
fn untagged_union_with_record_and_errors_is_error_records() {
    let bytes = br#"{"success":true,"result":{"record":[{"content":"route1.mx.cloudflare.net","name":"example.com","priority":12,"ttl":1,"type":"MX"}],"errors":[{"code":"DNSRecordMissing","missing":{"name":"example.com","type":"TXT"}}]}}"#;
    match decode_response::<RoutingSettingUnion>(bytes).map(|s| s.result) {
        Ok(RoutingSettingUnion::ErrorRecords { record, errors }) => {
            assert_eq!(record.len(), 1);
            assert_eq!(record[0].priority, Some(12));
            assert_eq!(record[0].record_type, Some("MX".to_string()));
            assert_eq!(errors.len(), 1);
            assert_eq!(errors[0].code, Some("DNSRecordMissing".to_string()));
            let missing = errors[0].missing.as_ref().expect("missing record");
            assert_eq!(missing.record_type, Some("TXT".to_string()));
            assert_eq!(missing.content, None);
        }
        other => panic!("unexpected outcome: {:?}", other),
    }
}

#[test]
fn untagged_union_with_a_list_is_records() {
    let bytes = br#"{"success":true,"result":[{"name":"a"},{"name":"b"}]}"#;
    match decode_response::<RoutingSettingUnion>(bytes).map(|s| s.result) {
        Ok(RoutingSettingUnion::Records(records)) => {
            assert_eq!(records.len(), 2);
            assert_eq!(records[0].name, Some("a".to_string()));
            assert_eq!(records[1].name, Some("b".to_string()));
        }
        other => panic!("unexpected outcome: {:?}", other),
    }
}

#[test]
fn untagged_union_that_matches_nothing_keeps_the_fragment() {
    let bytes = br#"{"success":true,"result":{"record":[]}}"#;
    let fragment = Json::Object(vec![("record".to_string(), Json::List(vec![]))]);
    assert_eq!(
        decode_response::<RoutingSettingUnion>(bytes).map(|s| s.result),
        Err(ApiFailure::Payload(DecodeError::NoAlternative(fragment)))
    );
}

#[test]
fn untagged_union_refuses_an_object_with_another_member() {
    let bytes =
        br#"{"success":true,"result":{"record":[],"errors":[],"extra":1},"errors":[],"messages":[]}"#;
    let fragment = Json::Object(vec![
        ("record".to_string(), Json::List(vec![])),
        ("errors".to_string(), Json::List(vec![])),
        ("extra".to_string(), Json::Number(Number::PosInt(1))),
    ]);
    assert_eq!(
        decode_response::<RoutingSettingUnion>(bytes).map(|s| s.result),
        Err(ApiFailure::Payload(DecodeError::NoAlternative(fragment)))
    );
    let bytes = br#"{"success":true,"result":{"errors":[],"record":[]}}"#;
    assert_eq!(
        decode_response::<RoutingSettingUnion>(bytes).map(|s| s.result),
        Ok(RoutingSettingUnion::ErrorRecords { record: vec![], errors: vec![] })
    );
    assert_eq!(
        require_only(&Json::Object(vec![("other".to_string(), Json::Null)]), "record", "errors"),
        Err(DecodeError::UnknownField("other".to_string()))
    );
    assert_eq!(require_only(&Json::Null, "record", "errors"), Ok(()));
}

#[test]
fn batch_response_keeps_length_and_order() {
    let text = format!(
        "{{\"success\":true,\"result\":{{\"posts\":[{},{}],\"deletes\":[{}]}}}}",
        record("p1", "one.example.com", "A", "1.2.3.4"),
        record("p2", "two.example.com", "MX\",\"priority\":10,\"x\":\"", "mail.example.com"),
        record("d1", "gone.example.com", "TXT", "hello")
    );
    let r = decode_response::<BatchDnsRecordsResponse>(text.as_bytes()).expect("success").result;
    let posts = r.posts.expect("posts");
    let deletes = r.deletes.expect("deletes");
    assert_eq!(posts.len(), 2);
    assert_eq!(posts[0].id, "p1");
    assert_eq!(posts[0].content, DnsContent::A { content: "1.2.3.4".to_string() });
    assert_eq!(posts[1].id, "p2");
    assert_eq!(
        posts[1].content,
        DnsContent::MX { content: "mail.example.com".to_string(), priority: 10 }
    );
    assert_eq!(deletes.len(), 1);
    assert_eq!(deletes[0].id, "d1");
    assert_eq!(r.patches, None);
    assert_eq!(r.puts, None);
}

#[test]
fn batch_response_takes_empty_and_absent_buckets() {
    let r = decode_response::<BatchDnsRecordsResponse>(
        br#"{"success":true,"result":{"posts":[],"puts":null}}"#,
    )
    .expect("success")
    .result;
    assert_eq!(r.posts, Some(vec![]));
    assert_eq!(r.puts, None);
    assert_eq!(r.deletes, None);
    assert_eq!(r.patches, None);
}

#[test]
fn dns_record_is_decoded_field_by_field() {
    let text = format!(
        "{{\"success\":true,\"result\":{}}}",
        record("372e67954025e0ba6aaa6d586b9e0b59", "example.com", "A", "198.51.100.4")
    );
    let r = decode_response::<DnsRecord>(text.as_bytes()).expect("success").result;
    assert_eq!(r.id, "372e67954025e0ba6aaa6d586b9e0b59");
    assert_eq!(r.name, "example.com");
    assert_eq!(r.ttl, 1);
    assert_eq!(r.modified_on.seconds, 1388553600);
    assert_eq!(r.modified_on.nanoseconds, 123450000);
    assert_eq!(r.created_on.seconds, 1388553600);
    assert_eq!(r.created_on.nanoseconds, 0);
    assert!(r.proxiable);
    assert!(!r.proxied);
    assert_eq!(r.content, DnsContent::A { content: "198.51.100.4".to_string() });
}

#[test]
fn unknown_discriminator_keeps_the_raw_value() {
    let text = format!(
        "{{\"success\":true,\"result\":{}}}",
        record("1", "example.com", "LOC", "somewhere")
    );
    assert_eq!(
        decode_response::<DnsRecord>(text.as_bytes()).map(|s| s.result),
        Err(ApiFailure::Payload(DecodeError::UnknownDiscriminator(Json::Text("LOC".to_string()))))
    );
    assert_eq!(
        decode_response::<DnsContent>(br#"{"success":true,"result":{"type":7,"content":"x"}}"#)
            .map(|s| s.result),
        Err(ApiFailure::Payload(DecodeError::UnknownDiscriminator(Json::Number(Number::PosInt(7)))))
    );
    assert_eq!(
        decode_response::<DnsContent>(br#"{"success":true,"result":{"content":"x"}}"#)
            .map(|s| s.result),
        Err(ApiFailure::Payload(DecodeError::MissingField("type".to_string())))
    );
}

#[test]
fn a_timestamp_that_is_none_is_refused() {
    let text = "{\"success\":true,\"result\":{\"meta\":{},\"name\":\"n\",\"ttl\":1,\
                \"modified_on\":\"yesterday\",\"created_on\":\"2014-01-01T05:20:00Z\",\
                \"proxiable\":true,\"type\":\"A\",\"content\":\"1.2.3.4\",\"id\":\"i\",\"proxied\":false}}";
    assert_eq!(
        decode_response::<DnsRecord>(text.as_bytes()).map(|s| s.result),
        Err(ApiFailure::Payload(DecodeError::InvalidType(Kind::Timestamp)))
    );
}

#[test]
fn transport_failure_is_kept_apart() {
    assert_eq!(
        read_exchange::<DeleteDnsRecordResponse>(Err("connection refused".to_string())),
        Err(ApiFailure::Transport("connection refused".to_string()))
    );
    let body = br#"{"success":true,"result":{"id":"abc"}}"#.to_vec();
    let r = read_exchange::<DeleteDnsRecordResponse>(Ok(body)).expect("success");
    assert_eq!(r.result.id, "abc");
}
