use dns_api_client::config::{Configuration, Credential};
use dns_api_client::error::ProviderErrorKind;
use dns_api_client::mythic_beasts::MythicBeasts;
use dns_api_client::provider::{get_provider_credentials, init_provider, Provider};

fn cred(user: &str, zone: Option<&str>, host: Option<&str>, rtype: Option<&str>) -> Credential {
    Credential {
        provider: "mythic-beasts".to_string(),
        user: user.to_string(),
        pass: format!("{}-pass", user),
        zone: zone.map(|s| s.to_string()),
        host: host.map(|s| s.to_string()),
        rtype: rtype.map(|s| s.to_string()),
    }
}

fn backend(creds: Vec<Credential>) -> MythicBeasts {
    let mut m = MythicBeasts::new();
    m.set_credentials(creds);
    m
}

#[test]
fn single_credential_is_used_whatever_its_scope() {
    let m = backend(vec![cred("only", Some("other.org"), Some("mail"), Some("MX"))]);
    let c = m.get_credential("example.com", Some("www"), None).unwrap();
    assert_eq!(c.user, "only");
    assert_eq!(c.pass, "only-pass");
    let c = m.get_credential("anything.net", None, Some("TXT")).unwrap();
    assert_eq!(c.user, "only");
}

#[test]
fn first_exactly_matching_credential_wins() {
    let m = backend(vec![
        cred("a", Some("example.com"), Some("www"), Some("A")),
        cred("b", Some("example.com"), None, None),
        cred("c", Some("example.com"), None, None),
    ]);
    assert_eq!(m.get_credential("example.com", None, None).unwrap().user, "b");
    assert_eq!(m.get_credential("example.com", Some("www"), Some("A")).unwrap().user, "a");
}

#[test]
fn no_matching_credential_is_credential_not_found() {
    let m = backend(vec![
        cred("a", Some("example.com"), Some("www"), None),
        cred("b", Some("example.com"), None, None),
    ]);
    let e = m.get_credential("example.com", Some("mail"), None).unwrap_err();
    assert_eq!(e.kind, ProviderErrorKind::CredentialNotFound);
    assert_eq!(e.text(), "Unable to find credential!");
    // scoping is exact: a type on the request needs a type on the credential
    let e = m.get_credential("example.com", Some("www"), Some("A")).unwrap_err();
    assert_eq!(e.kind, ProviderErrorKind::CredentialNotFound);
    // a credential without a zone never matches
    let m = backend(vec![cred("x", None, None, None), cred("y", None, None, None)]);
    assert!(m.get_credential("example.com", None, None).is_err());
}

#[test]
fn host_scoped_credential_is_chosen_over_zone_credential() {
    let m = backend(vec![
        cred("zone-wide", Some("example.com"), None, None),
        cred("www-only", Some("example.com"), Some("www"), None),
    ]);
    let c = m.get_credential("example.com", Some("www"), None).unwrap();
    assert_eq!(c.user, "www-only");
}

#[test]
fn unset_or_empty_credentials_find_nothing() {
    let m = MythicBeasts::new();
    let e = m.get_credential("example.com", None, None).unwrap_err();
    assert_eq!(e.kind, ProviderErrorKind::CredentialNotFound);
    let m = backend(vec![]);
    assert!(m.get_credential("example.com", None, None).is_err());
}

#[test]
fn provider_registry_knows_one_backend() {
    let p = init_provider("mythic-beasts").unwrap();
    assert_eq!(p.get_name(), "mythic-beasts");
    let e = init_provider("noip").unwrap_err();
    assert_eq!(e.kind, ProviderErrorKind::UnsupportedProvider);
    assert_eq!(e.text(), "Unsupported provider!");
}

#[test]
fn provider_credentials_are_filtered_by_name_in_order() {
    let p = init_provider("mythic-beasts").unwrap();
    let mut other = cred("elsewhere", None, None, None);
    other.provider = "noip".to_string();
    let config = Configuration {
        credentials: vec![cred("first", None, None, None), other, cred("second", None, None, None)],
    };
    let creds = get_provider_credentials(&p, config);
    let users: Vec<&str> = creds.iter().map(|c| c.user.as_str()).collect();
    assert_eq!(users, vec!["first", "second"]);
    assert!(get_provider_credentials(&p, Configuration::new()).is_empty());
}

#[test]
fn provider_uses_the_credentials_it_was_given() {
    let mut p = init_provider("mythic-beasts").unwrap();
    p.set_credentials(vec![cred("solo", None, None, None)]);
    let Provider::MythicBeasts(m) = &p;
    assert_eq!(m.get_credential("example.com", None, None).unwrap().user, "solo");
}
