//! Client library for managing DNS records through a hosting provider's REST API.
//!
//! The library holds the logic of the client: the credential set and the rule
//! that picks a credential for a request, the record model and its JSON form,
//! the construction of API endpoints, the decisions taken on each response, and
//! the error kinds. Sending the HTTP requests and reading files is left to the
//! program that uses it.

pub mod config;
pub mod error;
pub mod json;
pub mod record;
pub mod provider;
pub mod mythic_beasts;
pub mod response;
