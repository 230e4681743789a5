//! Client configurations of `rustls`.

use crate::external::provider::{provider_view, ProviderView};
use crate::external::roots::{anchors_in, contents, Anchor};
use rustls::crypto::CryptoProvider;
use rustls::{ClientConfig, RootCertStore};
use std::sync::Arc;
use vstd::prelude::*;

verus! {

/// A client configuration of `rustls`. What is inside is told by [`client_view`].
#[verifier::external_type_specification]
#[verifier::external_body]
pub struct ExClientConfig(rustls::ClientConfig);

/// What a client configuration lays down.
#[verifier::ext_equal]
pub struct ClientView {
    /// The cryptography.
    pub provider: ProviderView,
    /// The trust anchors that a server certificate has to lead to.
    pub anchors: Seq<Anchor>,
    /// Whether TLS 1.2 is enabled. It is spoken where the provider has a suite for it.
    pub tls12: bool,
    /// Whether TLS 1.3 is enabled. It is spoken where the provider has a suite for it.
    pub tls13: bool,
    /// Whether the client offers a certificate of its own.
    pub client_auth: bool,
    /// The application protocols that are offered, most preferred first.
    pub alpn: Seq<Seq<u8>>,
    /// Whether TLS 1.2 requires the extended master secret.
    pub require_ems: bool,
}

/// What the client configuration `config` lays down.
pub uninterp spec fn client_view(config: ClientConfig) -> ClientView;

/// Calls `ClientConfig::builder_with_provider`, `with_safe_default_protocol_versions`,
/// `with_root_certificates` and `with_no_client_auth` of `rustls` in turn. Assumed: the second
/// fails exactly where the provider does not fit the default protocol versions; otherwise the
/// configuration has the provider and the anchors given, enables TLS 1.2 and TLS 1.3, offers no
/// client certificate and no application protocol. Whether it requires the extended master secret
/// is left open: that follows the state of the provider.
#[verifier::external_body]
pub(crate) fn client_config(provider: Arc<CryptoProvider>, store: RootCertStore) -> (config: Result<
    ClientConfig,
    String,
>)
    ensures
        match config {
            Ok(config) => {
                &&& provider_view(*provider).refusal is None
                &&& client_view(config).provider == provider_view(*provider)
                &&& client_view(config).anchors == anchors_in(store)
                &&& client_view(config).tls12
                &&& client_view(config).tls13
                &&& !client_view(config).client_auth
                &&& client_view(config).alpn == Seq::<Seq<u8>>::empty()
            },
            Err(cause) => provider_view(*provider).refusal == Some(cause@),
        },
{
    Ok(ClientConfig::builder_with_provider(provider)
        .with_safe_default_protocol_versions()
        .map_err(|error| error.to_string())?
        .with_root_certificates(store)
        .with_no_client_auth())
}

/// Sets the field `alpn_protocols` of a `ClientConfig`. Assumed: nothing else changes.
#[verifier::external_body]
pub(crate) fn set_alpn_protocols(config: &mut ClientConfig, protocols: Vec<Vec<u8>>)
    ensures
        client_view(*final(config)) == (ClientView {
            alpn: contents(protocols@),
            ..client_view(*old(config))
        }),
{
    config.alpn_protocols = protocols;
}

/// Sets the field `require_ems` of a `ClientConfig`. Assumed: nothing else changes.
#[verifier::external_body]
pub(crate) fn set_require_ems(config: &mut ClientConfig, require_ems: bool)
    ensures
        client_view(*final(config)) == (ClientView { require_ems, ..client_view(*old(config)) }),
{
    config.require_ems = require_ems;
}

/// What a client configuration answered to the question whether it is in FIPS mode. Its view is
/// what the configuration lays down, and the answer. There is no answer without the question.
pub struct ConfigAnswer {
    config: Ghost<ClientView>,
    fips: bool,
}

impl View for ConfigAnswer {
    type V = (ClientView, bool);

    closed spec fn view(&self) -> (ClientView, bool) {
        (self.config@, self.fips)
    }
}

impl ConfigAnswer {
    /// Whether the configuration said that it is in FIPS mode.
    pub fn fips(&self) -> (fips: bool)
        ensures
            fips == self@.1,
    {
        self.fips
    }
}

/// Calls `ClientConfig::fips`, which asks the provider whether it is in FIPS mode now. Assumed: the
/// answer is that of the configuration given; one that does not require the extended master secret
/// is never in FIPS mode, nor one whose provider rests on `ring`.
#[verifier::external_body]
pub(crate) fn client_reports_fips(config: &ClientConfig) -> (answer: ConfigAnswer)
    ensures
        answer@.0 == client_view(*config),
        answer@.1 ==> client_view(*config).require_ems,
        client_view(*config).provider.engine is Ring ==> !answer@.1,
{
    ConfigAnswer { config: Ghost(client_view(*config)), fips: config.fips() }
}

} // verus!
