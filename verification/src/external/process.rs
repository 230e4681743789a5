//! The defaults that a process holds once for all: the crypto provider of `rustls` and the one of
//! `jsonwebtoken`.

pub use crate::external::defaults::ProcessDefaults;

use crate::external::provider::{provider_view, ProviderView};
use jsonwebtoken::crypto::aws_lc;
use jsonwebtoken::crypto::CryptoProvider as TokenProvider;
use rustls::crypto::CryptoProvider;
use std::sync::Arc;
use vstd::prelude::*;

verus! {

/// A crypto provider of `jsonwebtoken`.
#[verifier::external_type_specification]
#[verifier::external_body]
pub struct ExTokenProvider(jsonwebtoken::crypto::CryptoProvider);

/// Whether `provider` is the very AWS-LC provider that `jsonwebtoken` holds.
pub uninterp spec fn is_aws_lc(provider: TokenProvider) -> bool;

/// Calls `std::ptr::eq` on `provider` and on `DEFAULT_PROVIDER` of `jsonwebtoken::crypto::aws_lc`.
/// Assumed: it tells whether the two are one and the same.
#[verifier::external_body]
pub(crate) fn same_as_aws_lc(provider: &'static TokenProvider) -> (same: bool)
    ensures
        same == is_aws_lc(*provider),
{
    std::ptr::eq(provider, &aws_lc::DEFAULT_PROVIDER)
}

/// What came of a call that asked `rustls` to install a default provider. There is none without the
/// call.
pub struct TlsInstall {
    asked: Ghost<ProviderView>,
    installed: bool,
    default: Option<Arc<CryptoProvider>>,
}

impl TlsInstall {
    /// What the provider that was to be installed offers.
    pub closed spec fn asked(self) -> ProviderView {
        self.asked@
    }

    /// Whether the call installed it.
    pub closed spec fn installed(self) -> bool {
        self.installed
    }

    /// The default of the process behind the call.
    pub closed spec fn default(self) -> Option<Arc<CryptoProvider>> {
        self.default
    }

    /// Whether the call installed the provider.
    pub fn was_installed(&self) -> (installed: bool)
        ensures
            installed == self.installed(),
    {
        self.installed
    }

    /// The default of the process behind the call.
    pub fn default_provider(&self) -> (provider: &Option<Arc<CryptoProvider>>)
        ensures
            *provider == self.default(),
    {
        &self.default
    }
}

/// What `jsonwebtoken` returned to a call that asked it to install AWS-LC for signed tokens. There
/// is none without the call.
#[derive(Clone, Copy)]
pub struct TokenInstall {
    returned: Result<(), &'static TokenProvider>,
}

impl View for TokenInstall {
    type V = Result<(), TokenProvider>;

    closed spec fn view(&self) -> Result<(), TokenProvider> {
        match self.returned {
            Ok(()) => Ok(()),
            Err(handed_back) => Err(*handed_back),
        }
    }
}

impl TokenInstall {
    /// What the call returned.
    pub fn returned(&self) -> (returned: Result<(), &'static TokenProvider>)
        ensures
            match returned {
                Ok(()) => self@ == Ok::<(), TokenProvider>(()),
                Err(handed_back) => self@ == Err::<(), TokenProvider>(*handed_back),
            },
    {
        self.returned
    }
}

impl ProcessDefaults {
    /// Calls `CryptoProvider::install_default` of `rustls` on a copy of `provider`, tells whether
    /// the call installed it, and reads the default back with `CryptoProvider::get_default`.
    /// Assumed: behind the call the process has a default; it is `provider` where the call
    /// installed it; and a default that was seen before stays and makes the call fail. Whether
    /// other code of the process came first is not known.
    #[verifier::external_body]
    pub(crate) fn call_install_tls(&self, provider: &CryptoProvider) -> (install: TlsInstall)
        ensures
            install.asked() == provider_view(*provider),
            install.default() is Some,
            install.installed() ==> provider_view(*install.default()->0) == provider_view(*provider),
            self.tls() is Some ==> !install.installed() && install.default() == self.tls(),
    {
        let installed = provider.clone().install_default().is_ok();
        let default = CryptoProvider::get_default().cloned();
        TlsInstall { asked: Ghost(provider_view(*provider)), installed, default }
    }

    /// Calls `CryptoProvider::install_default` of `jsonwebtoken` on its AWS-LC provider. Assumed:
    /// it succeeds at most once in a process, and a failing call hands back the provider that it
    /// was called on, so AWS-LC. What a failing call hands back does not show which provider the
    /// process has, and `jsonwebtoken` offers no other way to ask: another provider that was
    /// installed for tokens before, or taken by the first use of a token, goes unnoticed.
    #[verifier::external_body]
    pub(crate) fn call_install_tokens(&self) -> (install: TokenInstall)
        ensures
            install@ matches Err(handed_back) ==> is_aws_lc(handed_back),
            install@ is Ok ==> self.tokens() is None && !self.tokens_ours(),
    {
        TokenInstall { returned: aws_lc::DEFAULT_PROVIDER.install_default() }
    }
}

} // verus!
