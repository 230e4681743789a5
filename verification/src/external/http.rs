//! HTTP client builders of `reqwest`.

use crate::external::client::{client_view, ClientView};
use reqwest::ClientBuilder;
use rustls::ClientConfig;
use vstd::prelude::*;

verus! {

/// An HTTP client builder of `reqwest`. Its TLS is told by [`builder_tls`].
#[verifier::external_type_specification]
#[verifier::external_body]
pub struct ExClientBuilder(reqwest::ClientBuilder);

/// The TLS that the clients of a builder use.
pub enum HttpTls {
    /// What `reqwest` picks.
    Unset,
    /// `rustls`, configured by `reqwest` with the default provider of the process.
    Rustls,
    /// `rustls` with a given configuration.
    Preconfigured(ClientView),
}

/// The TLS that the clients of `builder` use.
pub uninterp spec fn builder_tls(builder: ClientBuilder) -> HttpTls;

/// What `builder` has set besides its TLS: two builders with the same value here differ in their
/// TLS alone.
pub uninterp spec fn builder_rest(builder: ClientBuilder) -> int;

/// Calls `reqwest::Client::builder` and, on what it returns, `use_preconfigured_tls` with a copy
/// of `config`. Assumed: the clients use that configuration. `reqwest` recognizes it because it is
/// built on the same `rustls`.
#[verifier::external_body]
pub(crate) fn preconfigured_builder(config: &ClientConfig) -> (builder: ClientBuilder)
    ensures
        builder_tls(builder) == HttpTls::Preconfigured(client_view(*config)),
{
    reqwest::Client::builder().use_preconfigured_tls(config.clone())
}

/// Calls `ClientBuilder::use_rustls_tls` of `reqwest`. Assumed: the clients use `rustls`, and
/// every other setting stays.
#[verifier::external_body]
pub(crate) fn use_rustls(builder: ClientBuilder) -> (forced: ClientBuilder)
    ensures
        builder_tls(forced) is Rustls,
        builder_rest(forced) == builder_rest(builder),
{
    builder.use_rustls_tls()
}

} // verus!
