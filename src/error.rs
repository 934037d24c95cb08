//! The kinds of failure that the provider operations report.

use vstd::prelude::*;

verus! {

/// What went wrong.
#[derive(Debug, Clone, Copy, PartialEq, Eq, Structural)]
pub enum ProviderErrorKind {
    /// No configured credential matches the request's scoping, and the
    /// single-credential shortcut does not apply.
    CredentialNotFound,
    /// The network or TLS exchange with the backend failed.
    TransportFailure,
    /// The response body could not be decoded into the expected envelope.
    SerializationFailure,
    /// The backend reported an error, or answered with a client-error status
    /// and no recognisable error payload.
    DnsApiError,
    /// No provider implementation carries the requested name.
    UnsupportedProvider,
}

/// An error of a provider operation: its kind and, optionally, a message that
/// replaces the kind's default text.
#[derive(Debug)]
pub struct ProviderError {
    pub kind: ProviderErrorKind,
    pub message: Option<String>,
}

/// The text reported for an error of the given kind that carries no message.
pub open spec fn default_text(kind: ProviderErrorKind) -> Seq<char> {
    match kind {
        ProviderErrorKind::CredentialNotFound => "Unable to find credential!"@,
        ProviderErrorKind::TransportFailure => "Unable to reach the DNS API!"@,
        ProviderErrorKind::SerializationFailure => "Unable to decode the API response!"@,
        ProviderErrorKind::DnsApiError => "Received API error!"@,
        ProviderErrorKind::UnsupportedProvider => "Unsupported provider!"@,
    }
}

impl ProviderError {
    /// The text this error reports.
    pub open spec fn spec_text(&self) -> Seq<char> {
        match self.message {
            Some(m) => m@,
            None => default_text(self.kind),
        }
    }

    /// An error of the given kind without a message.
    pub fn new(kind: ProviderErrorKind) -> (r: ProviderError)
        ensures
            r.kind == kind,
            r.message is None,
    {
        ProviderError { kind, message: None }
    }

    /// The same error with `msg` as its message.
    pub fn msg(self, msg: String) -> (r: ProviderError)
        ensures
            r.kind == self.kind,
            r.message == Some(msg),
    {
        ProviderError { kind: self.kind, message: Some(msg) }
    }

    /// The default text of this error's kind.
    pub fn default_message(&self) -> (r: String)
        ensures
            r@ == default_text(self.kind),
    {
        match self.kind {
            ProviderErrorKind::CredentialNotFound => "Unable to find credential!".to_owned(),
            ProviderErrorKind::TransportFailure => "Unable to reach the DNS API!".to_owned(),
            ProviderErrorKind::SerializationFailure => "Unable to decode the API response!".to_owned(),
            ProviderErrorKind::DnsApiError => "Received API error!".to_owned(),
            ProviderErrorKind::UnsupportedProvider => "Unsupported provider!".to_owned(),
        }
    }

    /// The text this error reports: its message if it has one, else the
    /// default text of its kind.
    pub fn text(&self) -> (r: String)
        ensures
            r@ == self.spec_text(),
    {
        match &self.message {
            Some(m) => m.clone(),
            None => self.default_message(),
        }
    }
}

} // verus!
