//! Configured credentials.

use vstd::prelude::*;

verus! {

/// One set of authentication secrets, optionally scoped to a zone, a host and
/// a record type. An unset scope field applies only to requests that leave the
/// same field unset.
#[derive(Debug, Clone, PartialEq, Eq)]
pub struct Credential {
    pub provider: String,
    pub user: String,
    pub pass: String,
    pub zone: Option<String>,
    pub host: Option<String>,
    pub rtype: Option<String>,
}

/// The text held by an optional string.
pub open spec fn opt_text(o: Option<String>) -> Option<Seq<char>> {
    match o {
        Some(s) => Some(s@),
        None => None,
    }
}

/// The text held by an optional string slice.
pub open spec fn opt_str_text(o: Option<&str>) -> Option<Seq<char>> {
    match o {
        Some(s) => Some(s@),
        None => None,
    }
}

/// A copy of an optional string, equal to the original.
pub fn copy_opt_string(o: &Option<String>) -> (r: Option<String>)
    ensures
        r == *o,
{
    match o {
        Some(s) => Some(s.clone()),
        None => None,
    }
}

/// Whether an optional string holds exactly the text of an optional slice.
pub fn same_opt_text(a: &Option<String>, b: Option<&str>) -> (r: bool)
    ensures
        r == (opt_text(*a) == opt_str_text(b)),
{
    match (a, b) {
        (None, None) => true,
        (Some(x), Some(y)) => *x == y.to_owned(),
        _ => false,
    }
}

/// Whether a credential is scoped to exactly this zone, host and record type:
/// its zone must be set and equal, and its host and type must each be unset
/// when the request leaves them unset, and equal when it sets them.
pub open spec fn credential_matches(
    c: Credential,
    zone: Seq<char>,
    host: Option<Seq<char>>,
    rtype: Option<Seq<char>>,
) -> bool {
    &&& opt_text(c.zone) == Some(zone)
    &&& opt_text(c.host) == host
    &&& opt_text(c.rtype) == rtype
}

/// Whether position `i` holds the first credential of `creds` that matches.
pub open spec fn is_first_match(
    creds: Seq<Credential>,
    i: int,
    zone: Seq<char>,
    host: Option<Seq<char>>,
    rtype: Option<Seq<char>>,
) -> bool {
    &&& 0 <= i < creds.len()
    &&& credential_matches(creds[i], zone, host, rtype)
    &&& forall|j: int| 0 <= j < i ==> !credential_matches(#[trigger] creds[j], zone, host, rtype)
}

/// Only one position can hold the first match.
pub proof fn lemma_first_match_unique(
    creds: Seq<Credential>,
    i: int,
    j: int,
    zone: Seq<char>,
    host: Option<Seq<char>>,
    rtype: Option<Seq<char>>,
)
    requires
        is_first_match(creds, i, zone, host, rtype),
        is_first_match(creds, j, zone, host, rtype),
    ensures
        i == j,
{
    if i < j {
        assert(!credential_matches(creds[i], zone, host, rtype));
    } else if j < i {
        assert(!credential_matches(creds[j], zone, host, rtype));
    }
}

/// The credential chosen for a request on `zone`, `host` and `rtype`: the
/// only credential of a one-element set, whatever its scope; otherwise the
/// first one scoped to exactly this zone, host and type, if any.
pub open spec fn resolve_credential(
    creds: Seq<Credential>,
    zone: Seq<char>,
    host: Option<Seq<char>>,
    rtype: Option<Seq<char>>,
) -> Option<Credential> {
    if creds.len() == 1 {
        Some(creds[0])
    } else if exists|i: int| is_first_match(creds, i, zone, host, rtype) {
        Some(creds[choose|i: int| is_first_match(creds, i, zone, host, rtype)])
    } else {
        None
    }
}

impl Credential {
    /// Whether this credential is scoped to exactly this zone, host and type.
    pub fn matches(&self, zone: &str, host: Option<&str>, rtype: Option<&str>) -> (r: bool)
        ensures
            r == credential_matches(*self, zone@, opt_str_text(host), opt_str_text(rtype)),
    {
        same_opt_text(&self.zone, Some(zone)) && same_opt_text(&self.host, host) && same_opt_text(
            &self.rtype,
            rtype,
        )
    }

    /// A field-by-field copy of the credential.
    pub fn duplicate(&self) -> (r: Credential)
        ensures
            r == *self,
    {
        Credential {
            provider: self.provider.clone(),
            user: self.user.clone(),
            pass: self.pass.clone(),
            zone: copy_opt_string(&self.zone),
            host: copy_opt_string(&self.host),
            rtype: copy_opt_string(&self.rtype),
        }
    }
}

/// The ordered collection of configured credentials. Order matters only as a
/// tie-break: the first match wins.
#[derive(Debug, Clone, PartialEq, Eq)]
pub struct Configuration {
    pub credentials: Vec<Credential>,
}

impl Configuration {
    /// A configuration without credentials.
    pub fn new() -> (r: Configuration)
        ensures
            r.credentials@.len() == 0,
    {
        Configuration { credentials: Vec::new() }
    }
}

} // verus!
