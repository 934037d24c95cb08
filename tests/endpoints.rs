use dns_api_client::mythic_beasts::MythicBeasts;
use dns_api_client::provider::RequestContext;

fn ctx(zone: Option<&str>, host: Option<&str>, rtype: Option<&str>) -> RequestContext {
    RequestContext {
        zone: zone.map(|s| s.to_string()),
        host: host.map(|s| s.to_string()),
        rtype: rtype.map(|s| s.to_string()),
    }
}

#[test]
fn endpoint_of_zone_host_and_type() {
    assert_eq!(
        MythicBeasts::build_api_endpoint(&ctx(None, None, None), None),
        "https://api.mythic-beasts.com/dns/v2/zones"
    );
    assert_eq!(
        MythicBeasts::build_api_endpoint(&ctx(Some("example.com"), None, None), None),
        "https://api.mythic-beasts.com/dns/v2/zones/example.com/records"
    );
    assert_eq!(
        MythicBeasts::build_api_endpoint(&ctx(Some("example.com"), Some("www"), Some("A")), None),
        "https://api.mythic-beasts.com/dns/v2/zones/example.com/records/www/A"
    );
}

#[test]
fn endpoint_query_is_appended_verbatim() {
    assert_eq!(
        MythicBeasts::build_api_endpoint(
            &ctx(Some("example.com"), Some("@"), None),
            Some("exclude-generated=true&exclude-template=true")
        ),
        "https://api.mythic-beasts.com/dns/v2/zones/example.com/records/@?exclude-generated=true&exclude-template=true"
    );
}

#[test]
fn narrower_endpoints_extend_broader_ones() {
    let zone = MythicBeasts::build_api_endpoint(&ctx(Some("example.com"), None, None), None);
    let host = MythicBeasts::build_api_endpoint(&ctx(Some("example.com"), Some("www"), None), Some("q=1"));
    let host_bare = MythicBeasts::build_api_endpoint(&ctx(Some("example.com"), Some("www"), None), None);
    let typed = MythicBeasts::build_api_endpoint(&ctx(Some("example.com"), Some("www"), Some("AAAA")), Some("q=2"));
    assert!(host.starts_with(&zone));
    assert!(typed.starts_with(&host_bare));
    assert!(typed.starts_with(&zone));
    assert_ne!(host, zone);
}
