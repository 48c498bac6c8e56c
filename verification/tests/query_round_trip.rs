use cloudflare::endpoints::custom_hostname::hostname::{
    ListCustomHostnameOrder, ListCustomHostnameParams,
};
use cloudflare::endpoints::dns::dns::{DnsContent, ListDnsRecordsParams};
use cloudflare::endpoints::email_routing::addresses::ListDestinationAddressParams;
use cloudflare::endpoints::email_routing::rules::ListRoutingRuleParams;
use cloudflare::framework::decode::ApiResult;
use cloudflare::framework::endpoint::serialize_query;
use cloudflare::framework::pairs::StringMap;
use cloudflare::framework::query::{encode_query, QueryPayload};
use cloudflare::framework::{OrderDirection, SearchMatch};
use cloudflare::json::{Json, Number};

fn hex(b: u8) -> Option<u8> {
    match b {
        b'0'..=b'9' => Some(b - b'0'),
        b'A'..=b'F' => Some(b - b'A' + 10),
        b'a'..=b'f' => Some(b - b'a' + 10),
        _ => None,
    }
}

fn unescape(text: &str) -> String {
    let bytes = text.as_bytes();
    let mut out = Vec::new();
    let mut i = 0;
    while i < bytes.len() {
        if bytes[i] == b'+' {
            out.push(b' ');
            i += 1;
        } else if bytes[i] == b'%' && i + 2 < bytes.len() && hex(bytes[i + 1]).is_some() && hex(bytes[i + 2]).is_some() {
            out.push(hex(bytes[i + 1]).unwrap() * 16 + hex(bytes[i + 2]).unwrap());
            i += 3;
        } else {
            out.push(bytes[i]);
            i += 1;
        }
    }
    String::from_utf8(out).expect("text")
}

fn read_back(query: &str) -> Vec<(String, String)> {
    query
        .split('&')
        .filter(|piece| !piece.is_empty())
        .map(|piece| match piece.split_once('=') {
            Some((name, value)) => (unescape(name), unescape(value)),
            None => (unescape(piece), String::new()),
        })
        .collect()
}

fn pairs(list: &[(&str, &str)]) -> Vec<(String, String)> {
    list.iter().map(|(n, v)| (n.to_string(), v.to_string())).collect()
}

fn round_trip<Q: QueryPayload>(payload: &Q, present: &[(&str, &str)]) {
    assert_eq!(payload.to_query_pairs(), pairs(present));
    match serialize_query(payload) {
        None => assert!(present.is_empty()),
        Some(query) => {
            assert!(query.is_ascii());
            assert_eq!(read_back(&query), pairs(present));
        }
    }
}

#[test]
fn reading_a_query_back_gives_the_present_fields() {
    round_trip(
        &ListCustomHostnameParams {
            id: Some("a b&c=d%e+f".to_string()),
            direction: Some(OrderDirection::Descending),
            hostname: Some("\u{4f8b}\u{3048}.example".to_string()),
            order: Some(ListCustomHostnameOrder::Ssl),
            page: Some(7),
            per_page: None,
            ssl: Some(0),
        },
        &[
            ("id", "a b&c=d%e+f"),
            ("direction", "desc"),
            ("hostname", "\u{4f8b}\u{3048}.example"),
            ("order", "ssl"),
            ("page", "7"),
            ("ssl", "0"),
        ],
    );
    round_trip(&ListCustomHostnameParams::default(), &[]);
    round_trip(
        &ListRoutingRuleParams { enabled: Some(false), page: None, per_page: Some(100) },
        &[("enabled", "false"), ("per_page", "100")],
    );
    round_trip(
        &ListDestinationAddressParams {
            direction: None,
            page: None,
            per_page: None,
            verified: Some(true),
        },
        &[("verified", "true")],
    );
    round_trip(
        &ListDnsRecordsParams {
            record_type: Some(DnsContent::TXT { content: "k=v; a&b \u{1f600}".to_string() }),
            name: Some(String::new()),
            page: None,
            per_page: None,
            order: None,
            direction: None,
            search_match: Some(SearchMatch::Any),
        },
        &[("type", "TXT"), ("content", "k=v; a&b \u{1f600}"), ("name", ""), ("match", "any")],
    );
}

#[test]
fn every_byte_is_written_so_that_it_reads_back() {
    let odd: String = (0u8..128).map(|b| b as char).collect();
    let list = vec![(odd.clone(), odd.clone()), (String::new(), String::new()), ("=".to_string(), "&".to_string())];
    let query = encode_query(&list).expect("query");
    assert_eq!(read_back(&query), list);
    assert_eq!(encode_query(&Vec::new()), None);
    assert_eq!(encode_query(&pairs(&[("", "")])), Some("=".to_string()));
    assert_eq!(
        encode_query(&pairs(&[("a~b", "\u{0}\u{7f}\u{ff}")])),
        Some("a%7Eb=%00%7F%C3%BF".to_string())
    );
}

#[test]
fn a_map_holds_each_name_once() {
    let mut map = StringMap::new();
    map.insert("a".to_string(), "1".to_string());
    map.insert("b".to_string(), "2".to_string());
    map.insert("a".to_string(), "3".to_string());
    assert_eq!(map.entries, pairs(&[("a", "3"), ("b", "2")]));
    assert_eq!(map.get("a"), Some(&"3".to_string()));
    assert_eq!(map.get("c"), None);
    let object = Json::Object(vec![
        ("x".to_string(), Json::Text("1".to_string())),
        ("y".to_string(), Json::Text("2".to_string())),
        ("x".to_string(), Json::Text("3".to_string())),
    ]);
    assert_eq!(StringMap::from_json(&object).map(|m| m.entries), Ok(pairs(&[("x", "3"), ("y", "2")])));
    let object = Json::Object(vec![("x".to_string(), Json::Number(Number::PosInt(1)))]);
    assert!(StringMap::from_json(&object).is_err());
    assert!(StringMap::from_json(&Json::List(vec![])).is_err());
}
