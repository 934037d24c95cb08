//! The Mythic Beasts DNS API backend.

use vstd::prelude::*;
use crate::config::{
    credential_matches, is_first_match, lemma_first_match_unique, opt_str_text, opt_text,
    resolve_credential, Credential,
};
use crate::error::{ProviderError, ProviderErrorKind};
use crate::json::{member, JsonMember, JsonValue};
use crate::provider::{sends, HttpMethod, HttpRequest, RecordCounts, RequestContext};
use crate::record::{encodes_record, Record};
use crate::response::{check_failure, decode_envelope, failure_message, is_api_failure, ApiResponse};

verus! {

/// The base of every API endpoint.
pub const API_URL: &'static str = "https://api.mythic-beasts.com/dns/v2";

/// The name under which this backend is selected and its credentials are
/// configured.
pub open spec fn backend_name() -> Seq<char> {
    "mythic-beasts"@
}

/// The path segment of the zone, when it is given.
pub open spec fn zone_part(zone: Option<Seq<char>>) -> Seq<char> {
    match zone {
        Some(z) => "/"@ + z + "/records"@,
        None => seq![],
    }
}

/// A path segment, when it is given.
pub open spec fn segment(s: Option<Seq<char>>) -> Seq<char> {
    match s {
        Some(x) => "/"@ + x,
        None => seq![],
    }
}

/// The query string, when one is given.
pub open spec fn query_part(filter: Option<Seq<char>>) -> Seq<char> {
    match filter {
        Some(f) => "?"@ + f,
        None => seq![],
    }
}

/// The endpoint for a zone, host and type: the zone collection, narrowed by
/// each part that is given in the order zone, host, type, then the query.
pub open spec fn endpoint_url(
    zone: Option<Seq<char>>,
    host: Option<Seq<char>>,
    rtype: Option<Seq<char>>,
    filter: Option<Seq<char>>,
) -> Seq<char> {
    API_URL@ + "/zones"@ + zone_part(zone) + segment(host) + segment(rtype) + query_part(filter)
}

/// Narrowing a request keeps the broader request's endpoint as a prefix: the
/// endpoint of a zone (without query) begins the endpoint of a host in that
/// zone, which (without query) begins the endpoint of a type at that host,
/// whatever query each narrower endpoint carries.
pub proof fn lemma_endpoint_narrowing(
    zone: Seq<char>,
    host: Seq<char>,
    rtype: Seq<char>,
    f1: Option<Seq<char>>,
    f2: Option<Seq<char>>,
    f3: Option<Seq<char>>,
)
    ensures
        endpoint_url(Some(zone), None, None, None).is_prefix_of(
            endpoint_url(Some(zone), Some(host), None, f1),
        ),
        endpoint_url(Some(zone), Some(host), None, None).is_prefix_of(
            endpoint_url(Some(zone), Some(host), Some(rtype), f2),
        ),
        endpoint_url(Some(zone), None, None, None).is_prefix_of(
            endpoint_url(Some(zone), Some(host), Some(rtype), f3),
        ),
{
    let base = API_URL@ + "/zones"@ + zone_part(Some(zone));
    let empty = Seq::<char>::empty();
    assert(endpoint_url(Some(zone), None, None, None) =~= base);
    assert(endpoint_url(Some(zone), Some(host), None, f1) =~= base + (segment(Some(host))
        + query_part(f1)));
    assert(endpoint_url(Some(zone), Some(host), None, None) =~= base + segment(Some(host)));
    assert(endpoint_url(Some(zone), Some(host), Some(rtype), f2) =~= (base + segment(Some(host)))
        + (segment(Some(rtype)) + query_part(f2)));
    assert(endpoint_url(Some(zone), Some(host), Some(rtype), f3) =~= base + (segment(Some(host))
        + segment(Some(rtype)) + query_part(f3)));
}

/// The query that keeps generated and template records out of a change.
pub open spec fn mutation_filter() -> Seq<char> {
    "exclude-generated=true&exclude-template=true"@
}

/// The dynamic-DNS endpoint of a host in a zone.
pub open spec fn ddns_url(zone: Seq<char>, host: Seq<char>) -> Seq<char> {
    API_URL@ + "/zones/"@ + zone + "/dynamic/"@ + host
}

/// The endpoint of a request context, with `filter` as its query.
pub open spec fn context_endpoint(ctx: RequestContext, filter: Option<Seq<char>>) -> Seq<char> {
    endpoint_url(opt_text(ctx.zone), opt_text(ctx.host), opt_text(ctx.rtype), filter)
}

/// The credential chosen for a request context that names a zone.
pub open spec fn context_credential(creds: Seq<Credential>, ctx: RequestContext) -> Option<
    Credential,
> {
    resolve_credential(creds, ctx.zone->Some_0@, opt_text(ctx.host), opt_text(ctx.rtype))
}

/// Whether `body` is the document `{"records": [...]}` holding the JSON
/// objects of `records`, in order.
pub open spec fn records_body(body: Option<JsonValue>, records: Seq<Record>) -> bool {
    match body {
        Some(JsonValue::Object(ms)) => {
            &&& ms@.len() == 1
            &&& ms@[0].key@ == "records"@
            &&& match ms@[0].value {
                JsonValue::Array(items) => {
                    &&& items@.len() == records.len()
                    &&& forall|i: int|
                        0 <= i < records.len() ==> encodes_record(#[trigger] items@[i], records[i])
                },
                _ => false,
            }
        },
        _ => false,
    }
}

/// A count the response may leave out, which then counts as zero.
pub open spec fn count_or_zero(n: Option<u32>) -> u32 {
    match n {
        Some(k) => k,
        None => 0,
    }
}

/// What a dynamic-DNS request step gives: nothing to send when the zone or
/// the host is missing; otherwise a PUT on the host's dynamic endpoint with
/// the credential chosen for (zone, host, no type), or `CredentialNotFound`.
pub open spec fn dynamic_dns_request_ok(
    creds: Seq<Credential>,
    ctx: RequestContext,
    r: Result<Option<HttpRequest>, ProviderError>,
) -> bool {
    if ctx.zone is Some && ctx.host is Some {
        let z = ctx.zone->Some_0@;
        let h = ctx.host->Some_0@;
        match resolve_credential(creds, z, Some(h), None) {
            Some(c) => r matches Ok(Some(req)) && sends(req, HttpMethod::Put, ddns_url(z, h), c)
                && req.body is None,
            None => r matches Err(e) && e.kind == ProviderErrorKind::CredentialNotFound && e.message is None,
        }
    } else {
        r matches Ok(None)
    }
}

/// What a search request step gives: a GET on the context's endpoint with the
/// chosen credential, or `CredentialNotFound`.
pub open spec fn search_request_ok(
    creds: Seq<Credential>,
    ctx: RequestContext,
    r: Result<HttpRequest, ProviderError>,
) -> bool {
    match context_credential(creds, ctx) {
        Some(c) => r matches Ok(req) && sends(req, HttpMethod::Get, context_endpoint(ctx, None), c)
            && req.body is None,
        None => r matches Err(e) && e.kind == ProviderErrorKind::CredentialNotFound && e.message is None,
    }
}

/// What an update request step gives: a PUT of the records on the context's
/// endpoint, with generated and template records excluded, or
/// `CredentialNotFound`.
pub open spec fn update_request_ok(
    creds: Seq<Credential>,
    ctx: RequestContext,
    records: Seq<Record>,
    r: Result<HttpRequest, ProviderError>,
) -> bool {
    match context_credential(creds, ctx) {
        Some(c) => r matches Ok(req) && sends(
            req,
            HttpMethod::Put,
            context_endpoint(ctx, Some(mutation_filter())),
            c,
        ) && records_body(req.body, records),
        None => r matches Err(e) && e.kind == ProviderErrorKind::CredentialNotFound && e.message is None,
    }
}

/// What a delete request step gives: a DELETE on the context's endpoint, with
/// generated and template records excluded, or `CredentialNotFound`.
pub open spec fn delete_request_ok(
    creds: Seq<Credential>,
    ctx: RequestContext,
    r: Result<HttpRequest, ProviderError>,
) -> bool {
    match context_credential(creds, ctx) {
        Some(c) => r matches Ok(req) && sends(
            req,
            HttpMethod::Delete,
            context_endpoint(ctx, Some(mutation_filter())),
            c,
        ) && req.body is None,
        None => r matches Err(e) && e.kind == ProviderErrorKind::CredentialNotFound && e.message is None,
    }
}

/// What a dynamic-DNS response gives: the backend's message on success.
pub open spec fn dynamic_dns_outcome_ok(
    status: u16,
    body: JsonValue,
    r: Result<Option<String>, ProviderError>,
) -> bool {
    match decode_envelope(body) {
        None => r matches Err(e) && e.kind == ProviderErrorKind::SerializationFailure && e.message is None,
        Some(m) => match failure_message(status, m, "Unable to use DDNS feature"@, true) {
            Some(f) => r matches Err(e) && is_api_failure(e, f),
            None => r matches Ok(x) && x == m.message,
        },
    }
}

/// What a search response gives: the records it lists on success, `None`
/// when it lists none.
pub open spec fn search_outcome_ok(
    status: u16,
    body: JsonValue,
    r: Result<Option<Vec<Record>>, ProviderError>,
) -> bool {
    match decode_envelope(body) {
        None => r matches Err(e) && e.kind == ProviderErrorKind::SerializationFailure && e.message is None,
        Some(m) => match failure_message(status, m, "Unable to get search results"@, true) {
            Some(f) => r matches Err(e) && is_api_failure(e, f),
            None => r matches Ok(x) && match x {
                Some(v) => m.records == Some(v@),
                None => m.records is None,
            },
        },
    }
}

/// What an update response gives: the counts of added and removed records on
/// success, each zero when the response leaves it out.
pub open spec fn update_outcome_ok(
    status: u16,
    body: JsonValue,
    r: Result<RecordCounts, ProviderError>,
) -> bool {
    match decode_envelope(body) {
        None => r matches Err(e) && e.kind == ProviderErrorKind::SerializationFailure && e.message is None,
        Some(m) => match failure_message(status, m, "Unable to update selected record(s)"@, false) {
            Some(f) => r matches Err(e) && is_api_failure(e, f),
            None => r matches Ok(c) && c.added == count_or_zero(m.records_added) && c.removed
                == count_or_zero(m.records_removed),
        },
    }
}

/// What a delete response gives: the count of removed records on success,
/// zero when the response leaves it out.
pub open spec fn delete_outcome_ok(status: u16, body: JsonValue, r: Result<u32, ProviderError>) -> bool {
    match decode_envelope(body) {
        None => r matches Err(e) && e.kind == ProviderErrorKind::SerializationFailure && e.message is None,
        Some(m) => match failure_message(status, m, "Unable to delete selected record(s)"@, false) {
            Some(f) => r matches Err(e) && is_api_failure(e, f),
            None => r matches Ok(n) && n == count_or_zero(m.records_removed),
        },
    }
}

/// Deleting what is already gone is no error: a delete response that reports
/// no failure and no removed records, as the backend answers a second delete
/// of the same selection, yields a removed count of zero.
pub proof fn lemma_repeated_delete_reports_zero(
    status: u16,
    body: JsonValue,
    r: Result<u32, ProviderError>,
)
    requires
        delete_outcome_ok(status, body, r),
        decode_envelope(body) is Some,
        failure_message(status, decode_envelope(body)->Some_0, "Unable to delete selected record(s)"@, false)
            is None,
        count_or_zero(decode_envelope(body)->Some_0.records_removed) == 0,
    ensures
        r matches Ok(n) && n == 0,
{
}

/// The text of an optional string, borrowed.
fn opt_as_str<'a>(o: &'a Option<String>) -> (r: Option<&'a str>)
    ensures
        opt_str_text(r) == opt_text(*o),
{
    match o {
        Some(s) => Some(s.as_str()),
        None => None,
    }
}

/// The document `{"records": [...]}` holding the JSON objects of `records`.
fn records_document(records: &Vec<Record>) -> (r: JsonValue)
    ensures
        records_body(Some(r), records@),
{
    let mut items: Vec<JsonValue> = Vec::new();
    let mut i: usize = 0;
    while i < records.len()
        invariant
            0 <= i <= records@.len(),
            items@.len() == i,
            forall|j: int| 0 <= j < i ==> encodes_record(#[trigger] items@[j], records@[j]),
        decreases records@.len() - i,
    {
        items.push(records[i].to_json());
        i += 1;
    }
    let mut ms: Vec<JsonMember> = Vec::new();
    ms.push(member("records", JsonValue::Array(items)));
    JsonValue::Object(ms)
}

/// The Mythic Beasts backend, bound to the credentials it was given.
#[derive(Debug)]
pub struct MythicBeasts {
    /// `None` until credentials are set.
    pub credentials: Option<Vec<Credential>>,
}

impl MythicBeasts {
    /// The credentials to choose from; none before any were set.
    pub open spec fn credential_list(&self) -> Seq<Credential> {
        match self.credentials {
            Some(v) => v@,
            None => seq![],
        }
    }

    /// A backend without credentials.
    pub fn new() -> (r: MythicBeasts)
        ensures
            r.credentials is None,
    {
        MythicBeasts { credentials: None }
    }

    /// The backend's name.
    pub fn get_name(&self) -> (r: String)
        ensures
            r@ == backend_name(),
    {
        "mythic-beasts".to_owned()
    }

    /// Replaces the credential set.
    pub fn set_credentials(&mut self, c: Vec<Credential>)
        ensures
            final(self).credentials == Some(c),
    {
        self.credentials = Some(c);
    }

    /// The credential to authenticate a request on `zone`, `host` and `rtype`
    /// with. A set of exactly one credential gives that credential whatever
    /// its scope. Otherwise the first credential scoped to exactly this zone,
    /// host and type is chosen, and `CredentialNotFound` is returned when
    /// there is none.
    pub fn get_credential(&self, zone: &str, host: Option<&str>, rtype: Option<&str>) -> (r: Result<
        Credential,
        ProviderError,
    >)
        ensures
            match resolve_credential(
                self.credential_list(),
                zone@,
                opt_str_text(host),
                opt_str_text(rtype),
            ) {
                Some(c) => r matches Ok(x) && x == c,
                None => r matches Err(e) && e.kind == ProviderErrorKind::CredentialNotFound && e.message is None,
            },
            self.credential_list().len() == 1 ==> (r matches Ok(c) && c == self.credential_list()[0]),
            self.credential_list().len() != 1 ==> match r {
                Ok(c) => exists|i: int|
                    is_first_match(
                        self.credential_list(),
                        i,
                        zone@,
                        opt_str_text(host),
                        opt_str_text(rtype),
                    ) && c == #[trigger] self.credential_list()[i],
                Err(e) => e.kind == ProviderErrorKind::CredentialNotFound && e.message is None && forall|i: int|
                    0 <= i < self.credential_list().len() ==> !credential_matches(
                        #[trigger] self.credential_list()[i],
                        zone@,
                        opt_str_text(host),
                        opt_str_text(rtype),
                    ),
            },
    {
        let creds = match &self.credentials {
            Some(v) => v,
            None => {
                return Err(ProviderError::new(ProviderErrorKind::CredentialNotFound));
            },
        };
        if creds.len() == 1 {
            return Ok(creds[0].duplicate());
        }
        let mut i: usize = 0;
        while i < creds.len()
            invariant
                0 <= i <= creds@.len(),
                creds@ == self.credential_list(),
                forall|j: int|
                    0 <= j < i ==> !credential_matches(
                        #[trigger] creds@[j],
                        zone@,
                        opt_str_text(host),
                        opt_str_text(rtype),
                    ),
            decreases creds@.len() - i,
        {
            if creds[i].matches(zone, host, rtype) {
                let c = creds[i].duplicate();
                proof {
                    let (z, h, t) = (zone@, opt_str_text(host), opt_str_text(rtype));
                    assert(is_first_match(creds@, i as int, z, h, t));
                    let k = choose|k: int| is_first_match(creds@, k, z, h, t);
                    lemma_first_match_unique(creds@, i as int, k, z, h, t);
                }
                return Ok(c);
            }
            i += 1;
        }
        assert(!exists|k: int|
            is_first_match(creds@, k, zone@, opt_str_text(host), opt_str_text(rtype)));
        Err(ProviderError::new(ProviderErrorKind::CredentialNotFound))
    }

    /// The endpoint for the request's zone, host and type, with `filter` as
    /// its query string when one is given. Parts are appended as given,
    /// without escaping or checks.
    pub fn build_api_endpoint(ctx: &RequestContext, filter: Option<&str>) -> (r: String)
        ensures
            r@ == endpoint_url(
                opt_text(ctx.zone),
                opt_text(ctx.host),
                opt_text(ctx.rtype),
                opt_str_text(filter),
            ),
    {
        let mut endpoint = API_URL.to_owned();
        endpoint.append("/zones");
        let ghost prefix = endpoint@;
        match &ctx.zone {
            Some(z) => {
                endpoint.append("/");
                endpoint.append(z.as_str());
                endpoint.append("/records");
                assert(endpoint@ =~= prefix + zone_part(opt_text(ctx.zone)));
            },
            None => {
                assert(endpoint@ =~= prefix + zone_part(opt_text(ctx.zone)));
            },
        }
        let ghost prefix = endpoint@;
        match &ctx.host {
            Some(h) => {
                endpoint.append("/");
                endpoint.append(h.as_str());
                assert(endpoint@ =~= prefix + segment(opt_text(ctx.host)));
            },
            None => {
                assert(endpoint@ =~= prefix + segment(opt_text(ctx.host)));
            },
        }
        let ghost prefix = endpoint@;
        match &ctx.rtype {
            Some(t) => {
                endpoint.append("/");
                endpoint.append(t.as_str());
                assert(endpoint@ =~= prefix + segment(opt_text(ctx.rtype)));
            },
            None => {
                assert(endpoint@ =~= prefix + segment(opt_text(ctx.rtype)));
            },
        }
        let ghost prefix = endpoint@;
        match filter {
            Some(f) => {
                endpoint.append("?");
                endpoint.append(f);
                assert(endpoint@ =~= prefix + query_part(opt_str_text(filter)));
            },
            None => {
                assert(endpoint@ =~= prefix + query_part(opt_str_text(filter)));
            },
        }
        endpoint
    }

    /// The credential for a request context that names a zone.
    fn context_credential(&self, ctx: &RequestContext) -> (r: Result<Credential, ProviderError>)
        requires
            ctx.zone is Some,
        ensures
            match context_credential(self.credential_list(), *ctx) {
                Some(c) => r matches Ok(x) && x == c,
                None => r matches Err(e) && e.kind == ProviderErrorKind::CredentialNotFound && e.message is None,
            },
    {
        match &ctx.zone {
            Some(z) => self.get_credential(z.as_str(), opt_as_str(&ctx.host), opt_as_str(&ctx.rtype)),
            None => Err(ProviderError::new(ProviderErrorKind::CredentialNotFound)),
        }
    }

    /// The request that points the host's record at the caller, or nothing to
    /// send when the context lacks the zone or the host: that case is a
    /// success without action, not an error.
    pub fn dynamic_dns_request(&self, ctx: &RequestContext) -> (r: Result<Option<HttpRequest>, ProviderError>)
        ensures
            dynamic_dns_request_ok(self.credential_list(), *ctx, r),
    {
        let (zone, host) = match (&ctx.zone, &ctx.host) {
            (Some(z), Some(h)) => (z, h),
            _ => return Ok(None),
        };
        let c = match self.get_credential(zone.as_str(), Some(host.as_str()), None) {
            Ok(c) => c,
            Err(e) => return Err(e),
        };
        let mut url = API_URL.to_owned();
        url.append("/zones/");
        url.append(zone.as_str());
        url.append("/dynamic/");
        url.append(host.as_str());
        Ok(Some(HttpRequest { method: HttpMethod::Put, url, user: c.user, pass: c.pass, body: None }))
    }

    /// Interprets the response to a dynamic-DNS request.
    pub fn dynamic_dns_outcome(status: u16, body: &JsonValue) -> (r: Result<Option<String>, ProviderError>)
        ensures
            dynamic_dns_outcome_ok(status, *body, r),
    {
        let resp = match ApiResponse::from_json(body) {
            Ok(resp) => resp,
            Err(e) => return Err(e),
        };
        match check_failure(status, &resp, "Unable to use DDNS feature", true) {
            Ok(()) => Ok(resp.message),
            Err(e) => Err(e),
        }
    }

    /// The request that searches the records selected by the context.
    pub fn search_request(&self, ctx: &RequestContext) -> (r: Result<HttpRequest, ProviderError>)
        requires
            ctx.zone is Some,
        ensures
            search_request_ok(self.credential_list(), *ctx, r),
    {
        let url = MythicBeasts::build_api_endpoint(ctx, None);
        let c = match self.context_credential(ctx) {
            Ok(c) => c,
            Err(e) => return Err(e),
        };
        Ok(HttpRequest { method: HttpMethod::Get, url, user: c.user, pass: c.pass, body: None })
    }

    /// Interprets the response to a search request.
    pub fn search_outcome(status: u16, body: &JsonValue) -> (r: Result<Option<Vec<Record>>, ProviderError>)
        ensures
            search_outcome_ok(status, *body, r),
    {
        let resp = match ApiResponse::from_json(body) {
            Ok(resp) => resp,
            Err(e) => return Err(e),
        };
        match check_failure(status, &resp, "Unable to get search results", true) {
            Ok(()) => Ok(resp.records),
            Err(e) => Err(e),
        }
    }

    /// The request that replaces the records selected by the context with
    /// `records`. An empty list is sent like any other.
    pub fn update_request(&self, ctx: &RequestContext, records: &Vec<Record>) -> (r: Result<HttpRequest, ProviderError>)
        requires
            ctx.zone is Some,
        ensures
            update_request_ok(self.credential_list(), *ctx, records@, r),
    {
        let url = MythicBeasts::build_api_endpoint(
            ctx,
            Some("exclude-generated=true&exclude-template=true"),
        );
        let c = match self.context_credential(ctx) {
            Ok(c) => c,
            Err(e) => return Err(e),
        };
        let body = records_document(records);
        Ok(HttpRequest { method: HttpMethod::Put, url, user: c.user, pass: c.pass, body: Some(body) })
    }

    /// Interprets the response to an update request.
    pub fn update_outcome(status: u16, body: &JsonValue) -> (r: Result<RecordCounts, ProviderError>)
        ensures
            update_outcome_ok(status, *body, r),
    {
        let resp = match ApiResponse::from_json(body) {
            Ok(resp) => resp,
            Err(e) => return Err(e),
        };
        match check_failure(status, &resp, "Unable to update selected record(s)", false) {
            Ok(()) => {
                let added: u32 = match resp.records_added {
                    Some(n) => n,
                    None => 0,
                };
                let removed: u32 = match resp.records_removed {
                    Some(n) => n,
                    None => 0,
                };
                Ok(RecordCounts { added, removed })
            },
            Err(e) => Err(e),
        }
    }

    /// The request that deletes the records selected by the context.
    pub fn delete_request(&self, ctx: &RequestContext) -> (r: Result<HttpRequest, ProviderError>)
        requires
            ctx.zone is Some,
        ensures
            delete_request_ok(self.credential_list(), *ctx, r),
    {
        let url = MythicBeasts::build_api_endpoint(
            ctx,
            Some("exclude-generated=true&exclude-template=true"),
        );
        let c = match self.context_credential(ctx) {
            Ok(c) => c,
            Err(e) => return Err(e),
        };
        Ok(HttpRequest { method: HttpMethod::Delete, url, user: c.user, pass: c.pass, body: None })
    }

    /// Interprets the response to a delete request.
    pub fn delete_outcome(status: u16, body: &JsonValue) -> (r: Result<u32, ProviderError>)
        ensures
            delete_outcome_ok(status, *body, r),
    {
        let resp = match ApiResponse::from_json(body) {
            Ok(resp) => resp,
            Err(e) => return Err(e),
        };
        match check_failure(status, &resp, "Unable to delete selected record(s)", false) {
            Ok(()) => match resp.records_removed {
                Some(n) => Ok(n),
                None => Ok(0),
            },
            Err(e) => Err(e),
        }
    }
}

} // verus!
