use dns_api_client::config::Credential;
use dns_api_client::error::{ProviderError, ProviderErrorKind};
use dns_api_client::json::{JsonMember, JsonValue};
use dns_api_client::mythic_beasts::MythicBeasts;
use dns_api_client::provider::{init_provider, HttpMethod, RecordCounts, RequestContext};
use dns_api_client::record::Record;

fn s(v: &str) -> JsonValue {
    JsonValue::Str(v.to_string())
}

fn obj(members: Vec<(&str, JsonValue)>) -> JsonValue {
    JsonValue::Object(
        members
            .into_iter()
            .map(|(k, v)| JsonMember { key: k.to_string(), value: v })
            .collect(),
    )
}

fn ctx(zone: Option<&str>, host: Option<&str>, rtype: Option<&str>) -> RequestContext {
    RequestContext {
        zone: zone.map(|s| s.to_string()),
        host: host.map(|s| s.to_string()),
        rtype: rtype.map(|s| s.to_string()),
    }
}

fn cred(user: &str, zone: Option<&str>, host: Option<&str>) -> Credential {
    Credential {
        provider: "mythic-beasts".to_string(),
        user: user.to_string(),
        pass: format!("{}-secret", user),
        zone: zone.map(|s| s.to_string()),
        host: host.map(|s| s.to_string()),
        rtype: None,
    }
}

fn backend(creds: Vec<Credential>) -> MythicBeasts {
    let mut m = MythicBeasts::new();
    m.set_credentials(creds);
    m
}

fn api_error(e: ProviderError) -> String {
    assert_eq!(e.kind, ProviderErrorKind::DnsApiError);
    e.text()
}

#[test]
fn dynamic_dns_without_zone_or_host_sends_nothing() {
    let m = backend(vec![cred("u", None, None)]);
    assert!(m.dynamic_dns_request(&ctx(None, Some("www"), None)).unwrap().is_none());
    assert!(m.dynamic_dns_request(&ctx(Some("example.com"), None, None)).unwrap().is_none());
    // even without any credential, a missing flag is no error
    assert!(MythicBeasts::new().dynamic_dns_request(&ctx(None, None, None)).unwrap().is_none());
}

#[test]
fn dynamic_dns_puts_on_the_host_endpoint() {
    let m = backend(vec![
        cred("zone", Some("example.com"), None),
        cred("home", Some("example.com"), Some("home")),
    ]);
    let req = m.dynamic_dns_request(&ctx(Some("example.com"), Some("home"), Some("A"))).unwrap().unwrap();
    assert_eq!(req.method, HttpMethod::Put);
    assert_eq!(req.url, "https://api.mythic-beasts.com/dns/v2/zones/example.com/dynamic/home");
    assert_eq!(req.user, "home");
    assert_eq!(req.pass, "home-secret");
    assert!(req.body.is_none());
    let e = m.dynamic_dns_request(&ctx(Some("example.com"), Some("office"), None)).unwrap_err();
    assert_eq!(e.kind, ProviderErrorKind::CredentialNotFound);
}

#[test]
fn dynamic_dns_outcome_reports_message_or_error() {
    let ok = obj(vec![("message", s("1 record updated"))]);
    assert_eq!(MythicBeasts::dynamic_dns_outcome(200, &ok).unwrap(), Some("1 record updated".to_string()));
    let bad = obj(vec![("error", s("host not found"))]);
    let e = MythicBeasts::dynamic_dns_outcome(200, &bad).unwrap_err();
    assert_eq!(api_error(e), "Unable to use DDNS feature. Reason: host not found");
}

#[test]
fn search_request_and_outcome() {
    let m = backend(vec![cred("only", None, None)]);
    let req = m.search_request(&ctx(Some("example.com"), Some("www"), None)).unwrap();
    assert_eq!(req.method, HttpMethod::Get);
    assert_eq!(req.url, "https://api.mythic-beasts.com/dns/v2/zones/example.com/records/www");
    assert_eq!(req.user, "only");
    let body = obj(vec![(
        "records",
        JsonValue::Array(vec![obj(vec![
            ("host", s("www")),
            ("ttl", JsonValue::Number(300)),
            ("type", s("A")),
            ("data", s("192.0.2.7")),
        ])]),
    )]);
    let records = MythicBeasts::search_outcome(200, &body).unwrap().unwrap();
    assert_eq!(records.len(), 1);
    assert_eq!(records[0].data, "192.0.2.7");
    assert!(MythicBeasts::search_outcome(200, &obj(vec![])).unwrap().is_none());
}

#[test]
fn search_outcome_errors() {
    let e = MythicBeasts::search_outcome(200, &obj(vec![("error", s("no such zone"))])).unwrap_err();
    assert_eq!(api_error(e), "Unable to get search results. Reason: no such zone");
    let e = MythicBeasts::search_outcome(200, &s("oops")).unwrap_err();
    assert_eq!(e.kind, ProviderErrorKind::SerializationFailure);
    let e = MythicBeasts::search_outcome(200, &obj(vec![("records", s("none"))])).unwrap_err();
    assert_eq!(e.kind, ProviderErrorKind::SerializationFailure);
    assert_eq!(e.text(), "Unable to decode the API response!");
    let e = MythicBeasts::search_outcome(403, &obj(vec![])).unwrap_err();
    assert_eq!(api_error(e), "Received API error!");
}

#[test]
fn update_with_no_records_is_still_sent() {
    let m = backend(vec![cred("only", None, None)]);
    let req = m.update_request(&ctx(Some("example.com"), None, None), &vec![]).unwrap();
    assert_eq!(req.method, HttpMethod::Put);
    assert_eq!(
        req.url,
        "https://api.mythic-beasts.com/dns/v2/zones/example.com/records?exclude-generated=true&exclude-template=true"
    );
    match req.body {
        Some(JsonValue::Object(ms)) => {
            assert_eq!(ms.len(), 1);
            assert_eq!(ms[0].key, "records");
            assert!(matches!(&ms[0].value, JsonValue::Array(items) if items.is_empty()));
        }
        _ => panic!("no records document"),
    }
    let counts = MythicBeasts::update_outcome(200, &obj(vec![])).unwrap();
    assert_eq!(counts, RecordCounts { added: 0, removed: 0 });
}

#[test]
fn update_sends_the_records_and_reports_counts() {
    let m = backend(vec![cred("only", None, None)]);
    let rec = Record {
        host: "www".to_string(),
        ttl: 300,
        rtype: "A".to_string(),
        data: "192.0.2.1".to_string(),
        mx_priority: None,
        srv_priority: None,
        srv_weight: None,
        srv_port: None,
        sshfp_algorithm: None,
        sshfp_type: None,
        caa_flags: None,
        caa_property: None,
        tlsa_usage: None,
        tlsa_selector: None,
        tlsa_matching: None,
        template: None,
    };
    let req = m.update_request(&ctx(Some("example.com"), Some("www"), Some("A")), &vec![rec]).unwrap();
    match req.body {
        Some(JsonValue::Object(ms)) => match &ms[0].value {
            JsonValue::Array(items) => {
                assert_eq!(items.len(), 1);
                assert_eq!(Record::from_json(&items[0]).unwrap().data, "192.0.2.1");
            }
            _ => panic!("records is not a list"),
        },
        _ => panic!("no records document"),
    }
    let body = obj(vec![("records_added", JsonValue::Number(2)), ("records_removed", JsonValue::Number(1))]);
    assert_eq!(MythicBeasts::update_outcome(200, &body).unwrap(), RecordCounts { added: 2, removed: 1 });
    let body = obj(vec![("records_added", JsonValue::Number(3))]);
    assert_eq!(MythicBeasts::update_outcome(200, &body).unwrap(), RecordCounts { added: 3, removed: 0 });
}

#[test]
fn update_failure_lists_every_reason() {
    let body = obj(vec![("errors", JsonValue::Array(vec![s("bad ttl"), s("bad type")]))]);
    let e = MythicBeasts::update_outcome(400, &body).unwrap_err();
    let text = api_error(e);
    assert!(text.contains("bad ttl"));
    assert!(text.contains("bad type"));
    assert_eq!(text, "Unable to update selected record(s). Reasons: \n - bad ttl\n - bad type");
}

#[test]
fn update_failure_with_single_reason_or_none() {
    let body = obj(vec![("error", s("zone locked"))]);
    let e = MythicBeasts::update_outcome(409, &body).unwrap_err();
    assert_eq!(api_error(e), "Unable to update selected record(s). Reason: zone locked");
    let e = MythicBeasts::update_outcome(404, &obj(vec![])).unwrap_err();
    assert_eq!(api_error(e), "Received API error!");
    let body = obj(vec![("errors", JsonValue::Array(vec![])), ("error", s("denied"))]);
    let e = MythicBeasts::update_outcome(400, &body).unwrap_err();
    assert_eq!(api_error(e), "Unable to update selected record(s). Reason: denied");
}

#[test]
fn delete_twice_reports_zero_the_second_time() {
    let m = backend(vec![cred("only", None, None)]);
    let req = m.delete_request(&ctx(Some("example.com"), Some("old"), None)).unwrap();
    assert_eq!(req.method, HttpMethod::Delete);
    assert_eq!(
        req.url,
        "https://api.mythic-beasts.com/dns/v2/zones/example.com/records/old?exclude-generated=true&exclude-template=true"
    );
    let first = obj(vec![("records_removed", JsonValue::Number(2))]);
    assert_eq!(MythicBeasts::delete_outcome(200, &first).unwrap(), 2);
    let second = obj(vec![("records_removed", JsonValue::Number(0))]);
    assert_eq!(MythicBeasts::delete_outcome(200, &second).unwrap(), 0);
    assert_eq!(MythicBeasts::delete_outcome(200, &obj(vec![])).unwrap(), 0);
}

#[test]
fn delete_failure_lists_every_reason() {
    let body = obj(vec![("errors", JsonValue::Array(vec![s("a"), s("b"), s("c")]))]);
    let e = MythicBeasts::delete_outcome(400, &body).unwrap_err();
    assert_eq!(api_error(e), "Unable to delete selected record(s). Reasons: \n - a\n - b\n - c");
}

#[test]
fn provider_dispatches_to_its_backend() {
    let mut p = init_provider("mythic-beasts").unwrap();
    assert!(p.search_request(&ctx(Some("example.com"), None, None)).is_err());
    p.set_credentials(vec![cred("only", None, None)]);
    let req = p.search_request(&ctx(Some("example.com"), None, None)).unwrap();
    assert_eq!(req.user, "only");
    assert_eq!(p.delete_outcome(200, &obj(vec![("records_removed", JsonValue::Number(4))])).unwrap(), 4);
    assert_eq!(p.update_outcome(200, &obj(vec![])).unwrap(), RecordCounts { added: 0, removed: 0 });
    assert!(p.dynamic_dns_outcome(200, &obj(vec![])).unwrap().is_none());
    assert!(p.search_outcome(200, &obj(vec![])).unwrap().is_none());
    assert!(p.dynamic_dns_request(&ctx(None, None, None)).unwrap().is_none());
    assert!(p.update_request(&ctx(Some("example.com"), None, None), &vec![]).is_ok());
    assert!(p.delete_request(&ctx(Some("example.com"), None, None)).is_ok());
}

#[test]
fn error_texts() {
    let e = ProviderError::new(ProviderErrorKind::TransportFailure);
    assert_eq!(e.text(), "Unable to reach the DNS API!");
    assert_eq!(e.default_message(), "Unable to reach the DNS API!");
    let e = e.msg("Reqwest: connection refused".to_string());
    assert_eq!(e.kind, ProviderErrorKind::TransportFailure);
    assert_eq!(e.text(), "Reqwest: connection refused");
    assert_eq!(ProviderError::new(ProviderErrorKind::DnsApiError).text(), "Received API error!");
}

#[test]
fn search_failure_keeps_error_beside_reasons() {
    let body = obj(vec![
        ("error", s("no such zone")),
        ("errors", JsonValue::Array(vec![s("bad host"), s("bad type")])),
    ]);
    let e = MythicBeasts::search_outcome(200, &body).unwrap_err();
    assert_eq!(
        api_error(e),
        "Unable to get search results. Reasons: \n - no such zone\n - bad host\n - bad type"
    );
    let body = obj(vec![("errors", JsonValue::Array(vec![s("bad host")]))]);
    let e = MythicBeasts::search_outcome(400, &body).unwrap_err();
    assert_eq!(api_error(e), "Unable to get search results. Reasons: \n - bad host");
}

#[test]
fn dynamic_dns_failure_keeps_error_beside_reasons() {
    let body = obj(vec![
        ("error", s("host not found")),
        ("errors", JsonValue::Array(vec![s("zone locked")])),
    ]);
    let e = MythicBeasts::dynamic_dns_outcome(400, &body).unwrap_err();
    let text = api_error(e);
    assert!(text.contains("host not found"));
    assert!(text.contains("zone locked"));
    assert_eq!(text, "Unable to use DDNS feature. Reasons: \n - host not found\n - zone locked");
}

#[test]
fn update_failure_list_takes_over_from_single_reason() {
    let body = obj(vec![
        ("error", s("generic")),
        ("errors", JsonValue::Array(vec![s("bad ttl")])),
    ]);
    let e = MythicBeasts::update_outcome(400, &body).unwrap_err();
    assert_eq!(api_error(e), "Unable to update selected record(s). Reasons: \n - bad ttl");
}

#[test]
fn errors_without_message_carry_none() {
    let m = backend(vec![]);
    let e = m.search_request(&ctx(Some("example.com"), None, None)).unwrap_err();
    assert!(e.message.is_none());
    let e = MythicBeasts::delete_outcome(200, &s("not an envelope")).unwrap_err();
    assert_eq!(e.kind, ProviderErrorKind::SerializationFailure);
    assert!(e.message.is_none());
    assert!(init_provider("other").unwrap_err().message.is_none());
}
