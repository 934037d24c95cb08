//! The provider capability set, the request context it works on, and the
//! HTTP exchanges it asks its caller to perform.

use vstd::prelude::*;
use crate::config::{Configuration, Credential};
use crate::error::{ProviderError, ProviderErrorKind};
use crate::json::JsonValue;
use crate::mythic_beasts::{
    backend_name, delete_outcome_ok, delete_request_ok, dynamic_dns_outcome_ok,
    dynamic_dns_request_ok, search_outcome_ok, search_request_ok, update_outcome_ok,
    update_request_ok, MythicBeasts,
};
use crate::record::Record;

verus! {

/// The zone, host and record type that a request is about.
#[derive(Debug)]
pub struct RequestContext {
    pub zone: Option<String>,
    pub host: Option<String>,
    pub rtype: Option<String>,
}

/// The HTTP verbs the backend is driven with.
#[derive(Debug, Clone, Copy, PartialEq, Eq, Structural)]
pub enum HttpMethod {
    Get,
    Put,
    Delete,
}

/// One authenticated HTTP exchange for the caller to perform: the verb, the
/// URL, the basic-authentication user and password, and the JSON body, if any.
#[derive(Debug)]
pub struct HttpRequest {
    pub method: HttpMethod,
    pub url: String,
    pub user: String,
    pub pass: String,
    pub body: Option<JsonValue>,
}

/// Whether `req` uses verb `method` on `url`, authenticated with credential `c`.
pub open spec fn sends(req: HttpRequest, method: HttpMethod, url: Seq<char>, c: Credential) -> bool {
    &&& req.method == method
    &&& req.url@ == url
    &&& req.user == c.user
    &&& req.pass == c.pass
}

/// How many records an update added and removed.
#[derive(Debug, Clone, Copy, PartialEq, Eq, Structural)]
pub struct RecordCounts {
    pub added: u32,
    pub removed: u32,
}

/// A DNS hosting backend, bound to the credentials of one invocation. Each
/// operation is split in two: a request step that decides what to send, and
/// an outcome step that decides what the response means. The caller performs
/// the exchange in between.
#[derive(Debug)]
pub enum Provider {
    MythicBeasts(MythicBeasts),
}

impl Provider {
    /// The name the backend is selected by.
    pub open spec fn spec_name(&self) -> Seq<char> {
        match self {
            Provider::MythicBeasts(_) => backend_name(),
        }
    }

    /// The credentials the backend chooses from.
    pub open spec fn credential_list(&self) -> Seq<Credential> {
        match self {
            Provider::MythicBeasts(m) => m.credential_list(),
        }
    }

    /// The name the backend is selected by, and its credentials filtered by.
    pub fn get_name(&self) -> (r: String)
        ensures
            r@ == self.spec_name(),
    {
        match self {
            Provider::MythicBeasts(m) => m.get_name(),
        }
    }

    /// Replaces the credential set; the backend stays the same.
    pub fn set_credentials(&mut self, c: Vec<Credential>)
        ensures
            final(self).spec_name() == old(self).spec_name(),
            final(self).credential_list() == c@,
    {
        match self {
            Provider::MythicBeasts(m) => m.set_credentials(c),
        }
    }

    /// The dynamic-DNS request for the context, or nothing to send.
    pub fn dynamic_dns_request(&self, ctx: &RequestContext) -> (r: Result<Option<HttpRequest>, ProviderError>)
        ensures
            match self {
                Provider::MythicBeasts(m) => dynamic_dns_request_ok(m.credential_list(), *ctx, r),
            },
    {
        match self {
            Provider::MythicBeasts(m) => m.dynamic_dns_request(ctx),
        }
    }

    /// Interprets the response to a dynamic-DNS request.
    pub fn dynamic_dns_outcome(&self, status: u16, body: &JsonValue) -> (r: Result<Option<String>, ProviderError>)
        ensures
            match self {
                Provider::MythicBeasts(_) => dynamic_dns_outcome_ok(status, *body, r),
            },
    {
        match self {
            Provider::MythicBeasts(_) => MythicBeasts::dynamic_dns_outcome(status, body),
        }
    }

    /// The search request for the context.
    pub fn search_request(&self, ctx: &RequestContext) -> (r: Result<HttpRequest, ProviderError>)
        requires
            ctx.zone is Some,
        ensures
            match self {
                Provider::MythicBeasts(m) => search_request_ok(m.credential_list(), *ctx, r),
            },
    {
        match self {
            Provider::MythicBeasts(m) => m.search_request(ctx),
        }
    }

    /// Interprets the response to a search request.
    pub fn search_outcome(&self, status: u16, body: &JsonValue) -> (r: Result<Option<Vec<Record>>, ProviderError>)
        ensures
            match self {
                Provider::MythicBeasts(_) => search_outcome_ok(status, *body, r),
            },
    {
        match self {
            Provider::MythicBeasts(_) => MythicBeasts::search_outcome(status, body),
        }
    }

    /// The update request that sends `records` for the context.
    pub fn update_request(&self, ctx: &RequestContext, records: &Vec<Record>) -> (r: Result<HttpRequest, ProviderError>)
        requires
            ctx.zone is Some,
        ensures
            match self {
                Provider::MythicBeasts(m) => update_request_ok(m.credential_list(), *ctx, records@, r),
            },
    {
        match self {
            Provider::MythicBeasts(m) => m.update_request(ctx, records),
        }
    }

    /// Interprets the response to an update request.
    pub fn update_outcome(&self, status: u16, body: &JsonValue) -> (r: Result<RecordCounts, ProviderError>)
        ensures
            match self {
                Provider::MythicBeasts(_) => update_outcome_ok(status, *body, r),
            },
    {
        match self {
            Provider::MythicBeasts(_) => MythicBeasts::update_outcome(status, body),
        }
    }

    /// The delete request for the context.
    pub fn delete_request(&self, ctx: &RequestContext) -> (r: Result<HttpRequest, ProviderError>)
        requires
            ctx.zone is Some,
        ensures
            match self {
                Provider::MythicBeasts(m) => delete_request_ok(m.credential_list(), *ctx, r),
            },
    {
        match self {
            Provider::MythicBeasts(m) => m.delete_request(ctx),
        }
    }

    /// Interprets the response to a delete request.
    pub fn delete_outcome(&self, status: u16, body: &JsonValue) -> (r: Result<u32, ProviderError>)
        ensures
            match self {
                Provider::MythicBeasts(_) => delete_outcome_ok(status, *body, r),
            },
    {
        match self {
            Provider::MythicBeasts(_) => MythicBeasts::delete_outcome(status, body),
        }
    }
}

/// The backend registered under `name`, without credentials;
/// `UnsupportedProvider` for any other name.
pub fn init_provider(name: &str) -> (r: Result<Provider, ProviderError>)
    ensures
        name@ == backend_name() ==> (r matches Ok(p) && p is MythicBeasts
            && p.credential_list().len() == 0),
        name@ != backend_name() ==> (r matches Err(e) && e.kind
            == ProviderErrorKind::UnsupportedProvider && e.message is None),
{
    if name.to_owned() == "mythic-beasts".to_owned() {
        Ok(Provider::MythicBeasts(MythicBeasts::new()))
    } else {
        Err(ProviderError::new(ProviderErrorKind::UnsupportedProvider))
    }
}

/// Whether a credential is configured for the provider named `name`.
pub open spec fn for_provider(name: Seq<char>) -> spec_fn(Credential) -> bool {
    |c: Credential| c.provider@ == name
}

/// The configured credentials that belong to `provider`, in their order.
pub fn get_provider_credentials(provider: &Provider, c: Configuration) -> (r: Vec<Credential>)
    ensures
        r@ == c.credentials@.filter(for_provider(provider.spec_name())),
{
    let name = provider.get_name();
    let ghost pred = for_provider(provider.spec_name());
    let creds = &c.credentials;
    let mut out: Vec<Credential> = Vec::new();
    let mut i: usize = 0;
    assert(creds@.take(0) =~= Seq::<Credential>::empty());
    proof {
        reveal(Seq::filter);
    }
    while i < creds.len()
        invariant
            0 <= i <= creds@.len(),
            name@ == provider.spec_name(),
            pred == for_provider(provider.spec_name()),
            out@ == creds@.take(i as int).filter(pred),
        decreases creds@.len() - i,
    {
        assert(creds@.take(i as int + 1) =~= creds@.take(i as int).push(creds@[i as int]));
        proof {
            creds@.take(i as int).lemma_filter_push(creds@[i as int], pred);
        }
        if creds[i].provider == name {
            out.push(creds[i].duplicate());
        }
        i += 1;
    }
    assert(creds@.take(i as int) =~= creds@);
    out
}

} // verus!
