//! What is known of the defaults of a process, and how the checks of crypto providers came out.

use crate::external::process::{is_aws_lc, TlsInstall, TokenInstall};
use crate::external::provider::{
    provider_view, FipsAnswer, ModuleReport, ProviderView, RandomTrial,
};
use jsonwebtoken::crypto::CryptoProvider as TokenProvider;
use rustls::crypto::CryptoProvider;
use std::sync::Arc;
use vstd::prelude::*;

verus! {

/// What is known of the process-wide defaults, and how the checks of crypto providers came out.
/// Nothing is known at first; a default that was seen once stays for as long as the process runs.
///
/// All of it is read off what the calls themselves returned.
pub struct ProcessDefaults {
    /// The call that showed the default provider of `rustls`.
    seen: Option<TlsInstall>,
    /// The last call to install a provider, where that is another one.
    again: Option<TlsInstall>,
    loaded: Option<ModuleReport>,
    reported: Option<FipsAnswer>,
    tried: Option<RandomTrial>,
    tokens: Option<TokenInstall>,
    /// The call that installed AWS-LC for signed tokens.
    tokens_made: Option<TokenInstall>,
}

impl ProcessDefaults {
    /// The default provider of `rustls`, where one was seen.
    pub closed spec fn tls(self) -> Option<Arc<CryptoProvider>> {
        match self.seen {
            Some(install) => install.default(),
            None => None,
        }
    }

    /// Whether the default provider of `rustls` was installed through this record, and not by other
    /// code of the process.
    pub closed spec fn ours(self) -> bool {
        match self.seen {
            Some(install) => install.installed() && install.default() is Some,
            None => false,
        }
    }

    /// The provider that `rustls` was last asked to install, and whether it did.
    pub closed spec fn installation(self) -> Option<(ProviderView, bool)> {
        match (self.again, self.seen) {
            (Some(install), _) => Some((install.asked(), install.installed())),
            (None, Some(install)) => Some((install.asked(), install.installed())),
            (None, None) => None,
        }
    }

    /// The OpenSSL module that was last asked for, and what came of that: it was loaded, or the
    /// text of the error.
    pub closed spec fn loaded(self) -> Option<(Seq<char>, Result<(), Seq<char>>)> {
        match self.loaded {
            Some(report) => Some(report@),
            None => None,
        }
    }

    /// The provider that was asked last whether it is in FIPS mode, and its answer.
    pub closed spec fn reported(self) -> Option<(ProviderView, bool)> {
        match self.reported {
            Some(answer) => Some(answer@),
            None => None,
        }
    }

    /// The provider whose random generator was tried last, how many bytes were to be drawn, and
    /// whether that succeeded.
    pub closed spec fn tried(self) -> Option<(ProviderView, nat, bool)> {
        match self.tried {
            Some(trial) => Some(trial@),
            None => None,
        }
    }

    /// What `jsonwebtoken` returned when AWS-LC was last installed for signed tokens.
    pub closed spec fn tokens(self) -> Option<Result<(), TokenProvider>> {
        match self.tokens {
            Some(install) => Some(install@),
            None => None,
        }
    }

    /// Whether AWS-LC became the provider for signed tokens through this record.
    pub closed spec fn tokens_ours(self) -> bool {
        match self.tokens_made {
            Some(install) => install@ is Ok,
            None => false,
        }
    }

    /// Whether `self` and `other` have the same defaults, whatever was checked in between.
    pub open spec fn same_defaults(self, other: ProcessDefaults) -> bool {
        &&& self.tls() == other.tls()
        &&& self.ours() == other.ours()
        &&& self.tokens() == other.tokens()
        &&& self.tokens_ours() == other.tokens_ours()
    }

    /// Knows nothing of the process yet.
    pub fn new() -> (process: ProcessDefaults)
        ensures
            process.tls() is None,
            !process.ours(),
            process.installation() is None,
            process.loaded() is None,
            process.reported() is None,
            process.tried() is None,
            process.tokens() is None,
            !process.tokens_ours(),
    {
        ProcessDefaults {
            seen: None,
            again: None,
            loaded: None,
            reported: None,
            tried: None,
            tokens: None,
            tokens_made: None,
        }
    }

    /// The default provider of `rustls`, where one was seen.
    pub fn tls_provider(&self) -> (provider: &Option<Arc<CryptoProvider>>)
        ensures
            *provider == self.tls(),
    {
        match &self.seen {
            Some(install) => install.default_provider(),
            None => &None,
        }
    }

    /// Keeps what came of an attempt to load an OpenSSL module.
    pub fn record_load(&mut self, report: ModuleReport)
        ensures
            final(self).loaded() == Some(report@),
            final(self).reported() == old(self).reported(),
            final(self).tried() == old(self).tried(),
            final(self).installation() == old(self).installation(),
            final(self).same_defaults(*old(self)),
    {
        self.loaded = Some(report);
    }

    /// Keeps the answer of a provider that was asked whether it is in FIPS mode.
    pub fn record_answer(&mut self, answer: FipsAnswer)
        ensures
            final(self).reported() == Some(answer@),
            final(self).tried() == old(self).tried(),
            final(self).loaded() == old(self).loaded(),
            final(self).installation() == old(self).installation(),
            final(self).same_defaults(*old(self)),
    {
        self.reported = Some(answer);
    }

    /// Keeps what came of a trial of the random generator of a provider.
    pub fn record_trial(&mut self, trial: RandomTrial)
        ensures
            final(self).tried() == Some(trial@),
            final(self).reported() == old(self).reported(),
            final(self).loaded() == old(self).loaded(),
            final(self).installation() == old(self).installation(),
            final(self).same_defaults(*old(self)),
    {
        self.tried = Some(trial);
    }

    /// Asks `rustls` to install `provider` as its default, which it does unless there is one, and
    /// tells whether it did.
    pub(crate) fn install_tls(&mut self, provider: &CryptoProvider) -> (installed: bool)
        ensures
            final(self).installation() == Some((provider_view(*provider), installed)),
            final(self).tls() is Some,
            installed ==> provider_view(*final(self).tls()->0) == provider_view(*provider),
            installed ==> !old(self).ours(),
            old(self).tls() is Some ==> !installed && final(self).tls() == old(self).tls(),
            final(self).ours() == (installed || old(self).ours()),
            final(self).loaded() == old(self).loaded(),
            final(self).reported() == old(self).reported(),
            final(self).tried() == old(self).tried(),
            final(self).tokens() == old(self).tokens(),
            final(self).tokens_ours() == old(self).tokens_ours(),
    {
        let install = self.call_install_tls(provider);
        let installed: bool = install.was_installed();
        if self.tls_provider().is_none() {
            self.seen = Some(install);
            self.again = None;
        } else {
            self.again = Some(install);
        }
        installed
    }

    /// Asks `jsonwebtoken` to install AWS-LC as the provider for signed tokens, which it does
    /// unless there is one, and hands out what it returned.
    pub(crate) fn install_tokens(&mut self) -> (installed: Result<(), &'static TokenProvider>)
        ensures
            installed matches Err(handed_back) ==> is_aws_lc(*handed_back),
            installed is Ok ==> old(self).tokens() is None && !old(self).tokens_ours(),
            final(self).tokens() == Some(
                match installed {
                    Ok(()) => Ok::<(), TokenProvider>(()),
                    Err(handed_back) => Err(*handed_back),
                },
            ),
            final(self).tokens_ours() == (installed is Ok || old(self).tokens_ours()),
            final(self).tls() == old(self).tls(),
            final(self).ours() == old(self).ours(),
            final(self).installation() == old(self).installation(),
            final(self).loaded() == old(self).loaded(),
            final(self).reported() == old(self).reported(),
            final(self).tried() == old(self).tried(),
    {
        let install = self.call_install_tokens();
        let installed = install.returned();
        self.tokens = Some(install);
        if installed.is_ok() {
            self.tokens_made = Some(install);
        }
        installed
    }
}

/// What the record says of the defaults, calls have returned: a default that `rustls` has, a call
/// to install a provider showed; the record calls it its own only where that very call installed
/// it; and what it says of signed tokens, a call of `jsonwebtoken` returned.
proof fn defaults_are_what_calls_returned(process: ProcessDefaults)
    ensures
        process.tls() is Some ==> process.seen is Some && process.seen->0.default()
            == process.tls(),
        process.ours() ==> process.seen is Some && process.seen->0.installed()
            && process.seen->0.default() == process.tls(),
        process.tokens() is Some ==> process.tokens is Some && process.tokens->0@
            == process.tokens()->0,
        process.tokens_ours() ==> process.tokens_made is Some && process.tokens_made->0@ is Ok,
{
}

} // verus!
