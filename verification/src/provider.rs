//! Making and initializing the crypto provider of the process.

use crate::backend::{
    fips_cipher_suites, fips_groups, fips_key_exchanges, fips_suites, group_codes, suite_codes,
    Backend,
};
use crate::error::{ErrorView, TlsError};
use crate::external::client::{ClientView, ConfigAnswer};
use crate::external::process::ProcessDefaults;
use crate::external::provider::{
    aws_lc_provider, fill_random, load_openssl_module, module_name, openssl_provider,
    provider_reports_fips, provider_view, ring_groups, ring_provider, ring_suites, ProviderView,
};
use openssl::provider::Provider as OpenSslModule;
use rustls::crypto::CryptoProvider;
use std::sync::Arc;
use vstd::prelude::*;

verus! {

/// Whether `offer` is what the provider of `backend` offers: for `ring` and OpenSSL, exactly the
/// fixed lists.
pub open spec fn offered_by(backend: Backend, offer: ProviderView) -> bool {
    &&& offer.refusal is None
    &&& match backend {
        Backend::Ring => {
            &&& offer.engine is Ring
            &&& offer.suites == ring_suites()
            &&& offer.groups == ring_groups()
        },
        Backend::OpenSslFips => {
            &&& offer.engine is OpenSsl
            &&& offer.suites == suite_codes(fips_suites())
            &&& offer.groups == group_codes(fips_groups())
        },
        Backend::AwsLcFips => offer.engine is AwsLc,
    }
}

/// The crypto provider of a backend.
pub fn provider(backend: Backend) -> (provider: CryptoProvider)
    ensures
        offered_by(backend, provider_view(provider)),
{
    match backend {
        Backend::Ring => ring_provider(),
        Backend::OpenSslFips => openssl_provider(&fips_cipher_suites(), &fips_key_exchanges()),
        Backend::AwsLcFips => aws_lc_provider(),
    }
}

/// What is made of an attempt to load the OpenSSL module: without it there is no provider.
pub fn accept_module(loaded: Result<OpenSslModule, String>) -> (module: Result<
    OpenSslModule,
    TlsError,
>)
    ensures
        match (loaded, module) {
            (Ok(loaded), Ok(module)) => module == loaded,
            (Err(cause), Err(error)) => error@ == (ErrorView::LoadModule { cause: cause@ }),
            _ => false,
        },
{
    match loaded {
        Ok(module) => Ok(module),
        Err(cause) => Err(TlsError::LoadModule { cause }),
    }
}

/// What a build makes of a provider that says whether it is in FIPS mode: a FIPS build refuses one
/// that is not, another build takes any.
pub fn accept_provider(backend: Backend, reports_fips: bool) -> (accepted: Result<(), TlsError>)
    ensures
        accepted is Ok <==> !backend.fips() || reports_fips,
        accepted is Err ==> accepted->Err_0@ == ErrorView::ProviderNotFips,
{
    if !backend.fips() || reports_fips {
        Ok(())
    } else {
        Err(TlsError::ProviderNotFips)
    }
}

/// Refuses, in a FIPS build, a provider that is not in FIPS mode: asks it, and keeps the answer.
/// Another build takes any, and so does not ask. The `ring` provider never passes in a FIPS build.
pub fn require_fips_provider(
    backend: Backend,
    provider: &CryptoProvider,
    process: &mut ProcessDefaults,
) -> (accepted: Result<(), TlsError>)
    ensures
        !backend.fips() ==> accepted is Ok && *final(process) == *old(process),
        backend.fips() ==> {
            &&& final(process).reported() == Some((provider_view(*provider), accepted is Ok))
            &&& final(process).tried() == old(process).tried()
            &&& final(process).loaded() == old(process).loaded()
            &&& final(process).installation() == old(process).installation()
            &&& final(process).same_defaults(*old(process))
        },
        backend.fips() && provider_view(*provider).engine is Ring ==> accepted is Err,
        accepted matches Err(error) ==> error@ == ErrorView::ProviderNotFips,
{
    if !backend.fips() {
        return Ok(());
    }
    let answer = provider_reports_fips(provider);
    let reports_fips: bool = answer.fips();
    process.record_answer(answer);
    accept_provider(backend, reports_fips)
}

/// What a build makes of whether its provider became the default of the process: a FIPS build
/// insists on it, another build lets a provider that came first stay.
pub fn accept_installation(backend: Backend, installed: bool) -> (accepted: Result<(), TlsError>)
    ensures
        accepted is Ok <==> !backend.fips() || installed,
        accepted is Err ==> accepted->Err_0@ == ErrorView::ProviderInstalledBefore,
{
    if !backend.fips() || installed {
        Ok(())
    } else {
        Err(TlsError::ProviderInstalledBefore)
    }
}

/// What is made of a trial of the random generator: every build insists that it works.
pub fn accept_random(filled: bool) -> (accepted: Result<(), TlsError>)
    ensures
        accepted is Ok <==> filled,
        accepted is Err ==> accepted->Err_0@ == ErrorView::RandomGenerator,
{
    if filled {
        Ok(())
    } else {
        Err(TlsError::RandomGenerator)
    }
}

/// The initialized crypto provider, with the OpenSSL module that it needs loaded.
pub struct ProviderState {
    pub crypto: Arc<CryptoProvider>,
    pub module: Option<OpenSslModule>,
}

/// The value of a [`ProviderState`].
#[verifier::ext_equal]
pub struct StateView {
    /// What the provider offers.
    pub offer: ProviderView,
    /// The name of the OpenSSL module that is held loaded.
    pub module: Option<Seq<char>>,
}

/// The name of an OpenSSL module that may be missing.
pub open spec fn module_view(module: Option<OpenSslModule>) -> Option<Seq<char>> {
    match module {
        Some(module) => Some(module_name(module)),
        None => None,
    }
}

impl View for ProviderState {
    type V = StateView;

    open spec fn view(&self) -> StateView {
        StateView { offer: provider_view(*self.crypto), module: module_view(self.module) }
    }
}

/// The value of what initializing a provider gave.
pub open spec fn state_view(outcome: Result<ProviderState, TlsError>) -> Result<
    StateView,
    ErrorView,
> {
    match outcome {
        Ok(state) => Ok(state@),
        Err(error) => Err(error@),
    }
}

/// The OpenSSL module that `backend` needs loaded.
pub open spec fn module_for(backend: Backend) -> Option<Seq<char>> {
    if backend is OpenSslFips {
        Some("fips"@)
    } else {
        None
    }
}

/// How many bytes are drawn to try a random generator.
pub const TRIAL_LEN: usize = 32;

/// Whether the last checks in a process were of a provider that makes the offer given, and it
/// passed them: its random generator works and, in a FIPS build, it said that it is in FIPS mode.
pub open spec fn passed(backend: Backend, offer: ProviderView, process: ProcessDefaults) -> bool {
    &&& process.tried() == Some((offer, TRIAL_LEN as nat, true))
    &&& backend.fips() ==> process.reported() == Some((offer, true))
}

/// Whether `state` is that of the provider of `backend`, with its module, and the checks in the
/// process were passed.
pub open spec fn ready(backend: Backend, state: StateView, process: ProcessDefaults) -> bool {
    &&& offered_by(backend, state.offer)
    &&& state.module == module_for(backend)
    &&& passed(backend, state.offer, process)
}

/// Whether `after` has the default provider that `before` is known to have and, where a provider
/// was installed in between, one that makes the offer given.
pub open spec fn defaults_kept(
    offer: ProviderView,
    before: ProcessDefaults,
    after: ProcessDefaults,
) -> bool {
    &&& before.tls() is Some ==> after.tls() == before.tls() && after.ours() == before.ours()
    &&& before.ours() ==> after.ours()
    &&& after.ours() && !before.ours() ==> after.tls() is Some && provider_view(*after.tls()->0)
        == offer
    &&& after.tokens() == before.tokens()
    &&& after.tokens_ours() == before.tokens_ours()
}

/// Whether bringing up a provider that makes the offer given, with an OpenSSL module or without,
/// may take a process from `before` to `after` and give `outcome`.
///
/// A provider that said that it is not in FIPS mode is refused by a FIPS build and leaves the
/// defaults as they were. Any other provider `rustls` is asked to install. A FIPS build comes to a
/// provider only where that was done; another build goes on with its own provider where the process
/// has a default. A provider whose random generator failed the trial is refused by every build.
pub open spec fn brought_up(
    backend: Backend,
    offer: ProviderView,
    module: Option<Seq<char>>,
    before: ProcessDefaults,
    after: ProcessDefaults,
    outcome: Result<StateView, ErrorView>,
) -> bool {
    let installed_now = after.ours() && !before.ours();
    &&& defaults_kept(offer, before, after)
    &&& !backend.fips() ==> after.reported() == before.reported()
    &&& match outcome {
        Ok(state) => {
            &&& state == (StateView { offer, module })
            &&& passed(backend, offer, after)
            &&& after.installation() == Some((offer, installed_now))
            &&& after.tls() is Some
            &&& backend.fips() ==> before.tls() is None && installed_now
        },
        Err(ErrorView::ProviderNotFips) => {
            &&& backend.fips()
            &&& after.reported() == Some((offer, false))
            &&& after.tried() == before.tried()
            &&& after.installation() == before.installation()
            &&& after.same_defaults(before)
        },
        Err(ErrorView::ProviderInstalledBefore) => {
            &&& backend.fips()
            &&& after.reported() == Some((offer, true))
            &&& after.tried() == before.tried()
            &&& after.installation() == Some((offer, false))
            &&& after.tls() is Some
            &&& !installed_now
        },
        Err(ErrorView::RandomGenerator) => {
            &&& after.tried() == Some((offer, TRIAL_LEN as nat, false))
            &&& after.installation() == Some((offer, installed_now))
            &&& after.tls() is Some
            &&& backend.fips() ==> {
                &&& after.reported() == Some((offer, true))
                &&& before.tls() is None
                &&& installed_now
            }
        },
        Err(_) => false,
    }
}

/// Whether initializing the provider of `backend` may take a process from `before` to `after` and
/// give `outcome`: either its OpenSSL module is asked for and cannot be loaded, and nothing else
/// happens, or the module, where the backend needs one, is loaded and a provider that makes the
/// offer of the backend is brought up.
pub open spec fn initialized(
    backend: Backend,
    before: ProcessDefaults,
    after: ProcessDefaults,
    outcome: Result<StateView, ErrorView>,
) -> bool {
    ||| {
        &&& backend is OpenSslFips
        &&& outcome is Err
        &&& outcome->Err_0 is LoadModule
        &&& after.loaded() == Some(
            ("fips"@, Err::<(), Seq<char>>(outcome->Err_0->LoadModule_cause)),
        )
        &&& after.reported() == before.reported()
        &&& after.tried() == before.tried()
        &&& after.installation() == before.installation()
        &&& after.same_defaults(before)
    }
    ||| (if backend is OpenSslFips {
        after.loaded() == Some(("fips"@, Ok::<(), Seq<char>>(())))
    } else {
        after.loaded() == before.loaded()
    }) && exists|offer: ProviderView| #[trigger]
        offered_by(backend, offer) && brought_up(
            backend,
            offer,
            module_for(backend),
            before,
            after,
            outcome,
        )
}

/// The failures of initializing the provider of `backend`.
pub open spec fn provider_failure(backend: Backend, failure: ErrorView) -> bool {
    match failure {
        ErrorView::LoadModule { cause } => backend is OpenSslFips,
        ErrorView::ProviderNotFips => backend.fips(),
        ErrorView::ProviderInstalledBefore => backend.fips(),
        ErrorView::RandomGenerator => true,
        _ => false,
    }
}

/// Whether what is known of the process shows why initializing a provider failed: the loader
/// refused the module for that cause, the provider said that it is not in FIPS mode, `rustls`
/// did not install it, or its random generator failed the trial.
pub open spec fn witnessed(failure: ErrorView, process: ProcessDefaults) -> bool {
    match failure {
        ErrorView::LoadModule { cause } => process.loaded() == Some(
            ("fips"@, Err::<(), Seq<char>>(cause)),
        ),
        ErrorView::ProviderNotFips => process.reported() is Some && !(process.reported()->0).1,
        ErrorView::ProviderInstalledBefore => process.installation() is Some && !(
        process.installation()->0).1,
        ErrorView::RandomGenerator => process.tried() is Some && (process.tried()->0).1
            == TRIAL_LEN && !(process.tried()->0).2,
        _ => false,
    }
}

impl ProviderState {
    /// Initializes the provider of `backend`: loads the OpenSSL module where the backend needs it,
    /// makes the provider and brings it up.
    ///
    /// A FIPS build that succeeds has its own provider as the default of the process, and it fails
    /// where a default was known before. Another build fails only where the random generator does.
    pub fn initialize(backend: Backend, process: &mut ProcessDefaults) -> (state: Result<
        ProviderState,
        TlsError,
    >)
        ensures
            initialized(backend, *old(process), *final(process), state_view(state)),
            state matches Ok(state) ==> ready(backend, state@, *final(process)),
            state matches Err(error) ==> provider_failure(backend, error@),
    {
        let module: Option<OpenSslModule> = match backend {
            Backend::OpenSslFips => {
                proof {
                    reveal_strlit("fips");
                }
                let (loaded, report) = load_openssl_module("fips");
                process.record_load(report);
                Some(accept_module(loaded)?)
            },
            _ => None,
        };
        ProviderState::bring_up(backend, provider(backend), module, process)
    }

    /// Brings up a provider, with the OpenSSL module that it needs: checks it, installs it as the
    /// default of the process and tries its random generator.
    pub fn bring_up(
        backend: Backend,
        crypto: CryptoProvider,
        module: Option<OpenSslModule>,
        process: &mut ProcessDefaults,
    ) -> (state: Result<ProviderState, TlsError>)
        ensures
            brought_up(
                backend,
                provider_view(crypto),
                module_view(module),
                *old(process),
                *final(process),
                state_view(state),
            ),
            final(process).loaded() == old(process).loaded(),
            backend.fips() && provider_view(crypto).engine is Ring ==> {
                &&& state is Err
                &&& state->Err_0@ == ErrorView::ProviderNotFips
                &&& final(process).same_defaults(*old(process))
            },
    {
        require_fips_provider(backend, &crypto, process)?;
        let installed: bool = process.install_tls(&crypto);
        accept_installation(backend, installed)?;
        let mut buffer: Vec<u8> = vec![0; TRIAL_LEN];
        let trial = fill_random(&crypto, &mut buffer);
        let filled: bool = trial.filled();
        process.record_trial(trial);
        accept_random(filled)?;
        Ok(ProviderState { crypto: Arc::new(crypto), module })
    }
}

/// The crypto provider of the process, initialized when it is first needed. What came of that,
/// good or bad, stays.
pub struct ProcessProvider {
    backend: Backend,
    process: ProcessDefaults,
    state: Option<Result<ProviderState, TlsError>>,
    refused: Option<ConfigAnswer>,
}

impl ProcessProvider {
    /// The backend of the build.
    pub closed spec fn backend(self) -> Backend {
        self.backend
    }

    /// What is known of the defaults of the process.
    pub closed spec fn process(self) -> ProcessDefaults {
        self.process
    }

    /// What the initialization gave, once it was made: the provider, or the failure.
    pub closed spec fn outcome(self) -> Option<Result<StateView, ErrorView>> {
        match self.state {
            None => None,
            Some(outcome) => Some(state_view(outcome)),
        }
    }

    /// Everything but [`ProcessProvider::refused`].
    pub closed spec fn settled(self) -> (
        Backend,
        ProcessDefaults,
        Option<Result<ProviderState, TlsError>>,
    ) {
        (self.backend, self.process, self.state)
    }

    /// The client configuration on this provider that was last refused for not being in FIPS mode,
    /// and what it had answered.
    pub closed spec fn refused(self) -> Option<(ClientView, bool)> {
        match self.refused {
            Some(answer) => Some(answer@),
            None => None,
        }
    }

    /// An initialized provider is the one of the backend, holds its module and passed the checks;
    /// `rustls` was asked to install it and did, in any case in a FIPS build, unless the process
    /// had a default. A failure is one that the backend can have, and the process shows why it
    /// came.
    pub open spec fn wf(self) -> bool {
        match self.outcome() {
            None => true,
            Some(Ok(state)) => {
                &&& ready(self.backend(), state, self.process())
                &&& self.process().tls() is Some
                &&& self.backend().fips() ==> provider_view(*self.process().tls()->0)
                    == state.offer
                &&& self.process().installation() is Some
                &&& (self.process().installation()->0).0 == state.offer
                &&& (self.process().installation()->0).1 ==> self.process().ours()
                    && provider_view(*self.process().tls()->0) == state.offer
                &&& self.backend().fips() ==> (self.process().installation()->0).1
                &&& self.backend() is OpenSslFips ==> self.process().loaded() == Some(
                    ("fips"@, Ok::<(), Seq<char>>(())),
                )
            },
            Some(Err(failure)) => provider_failure(self.backend(), failure) && witnessed(
                failure,
                self.process(),
            ),
        }
    }

    /// Whether `later` has what `self` has. An initialization that was made stays as it is; one
    /// that was not may have been made in between.
    pub open spec fn kept(self, later: ProcessProvider) -> bool {
        &&& later.backend() == self.backend()
        &&& self.outcome() is Some || later.outcome() is None ==> {
            &&& later.settled() == self.settled()
            &&& later.process() == self.process()
            &&& later.outcome() == self.outcome()
        }
        &&& self.outcome() is None && later.outcome() is Some ==> initialized(
            self.backend(),
            self.process(),
            later.process(),
            later.outcome()->0,
        )
        &&& self.process().tls() is Some ==> later.process().tls() == self.process().tls()
    }

    /// A provider that is not initialized yet.
    pub fn new(backend: Backend, process: ProcessDefaults) -> (provider: ProcessProvider)
        ensures
            provider.wf(),
            provider.backend() == backend,
            provider.process() == process,
            provider.outcome() is None,
            provider.refused() is None,
    {
        ProcessProvider { backend, process, state: None, refused: None }
    }

    /// The backend of the build.
    pub fn backend_of(&self) -> (backend: Backend)
        ensures
            backend == self.backend(),
    {
        self.backend
    }

    /// Keeps the answer of a client configuration that was refused for it.
    pub fn record_refusal(&mut self, answer: ConfigAnswer)
        ensures
            final(self).refused() == Some(answer@),
            final(self).settled() == old(self).settled(),
            final(self).backend() == old(self).backend(),
            final(self).process() == old(self).process(),
            final(self).outcome() == old(self).outcome(),
    {
        self.refused = Some(answer);
    }

    /// Initializes the provider where that was not done before, and hands it out, or the failure
    /// of the one attempt.
    pub fn get(&mut self) -> (crypto: Result<Arc<CryptoProvider>, TlsError>)
        requires
            old(self).wf(),
        ensures
            final(self).wf(),
            old(self).kept(*final(self)),
            old(self).outcome() is Some ==> *final(self) == *old(self),
            final(self).refused() == old(self).refused(),
            final(self).outcome() is Some,
            match crypto {
                Ok(crypto) => final(self).outcome()->0 is Ok && final(self).outcome()->0->Ok_0.offer
                    == provider_view(*crypto),
                Err(error) => final(self).outcome()->0 == Err::<StateView, ErrorView>(error@),
            },
    {
        match &self.state {
            Some(Ok(state)) => return Ok(state.crypto.clone()),
            Some(Err(error)) => return Err(error.repeat()),
            None => {},
        }
        let state = ProviderState::initialize(self.backend, &mut self.process);
        let crypto = match &state {
            Ok(state) => Ok(state.crypto.clone()),
            Err(error) => Err(error.repeat()),
        };
        self.state = Some(state);
        crypto
    }
}

/// A FIPS build does not come to a provider in a process that has a default already: either its own
/// provider cannot be used, or it is refused because another one came first. The default stays.
pub proof fn earlier_provider_blocks_fips(
    backend: Backend,
    before: ProcessDefaults,
    after: ProcessDefaults,
    outcome: Result<StateView, ErrorView>,
)
    requires
        initialized(backend, before, after, outcome),
        backend.fips(),
        before.tls() is Some,
    ensures
        outcome is Err,
        outcome->Err_0 is LoadModule || outcome->Err_0 is ProviderNotFips || outcome->Err_0
            is ProviderInstalledBefore,
        after.tls() == before.tls(),
        after.ours() == before.ours(),
{
}

/// A module that cannot be loaded, or a provider that said that it is not in FIPS mode, leaves the
/// defaults of the process as they were: nothing was installed, neither that provider nor another.
pub proof fn refused_provider_changes_no_default(
    backend: Backend,
    before: ProcessDefaults,
    after: ProcessDefaults,
    outcome: Result<StateView, ErrorView>,
)
    requires
        initialized(backend, before, after, outcome),
        outcome is Err,
        outcome->Err_0 is LoadModule || outcome->Err_0 is ProviderNotFips,
    ensures
        after.same_defaults(before),
        outcome->Err_0 is ProviderNotFips ==> after.reported() is Some && !(after.reported()->0).1,
{
}

/// A default build uses `ring` whatever the process has. The process keeps a default that it had;
/// one that the build installs is that of `ring`.
pub proof fn default_build_uses_ring(
    before: ProcessDefaults,
    after: ProcessDefaults,
    outcome: Result<StateView, ErrorView>,
)
    requires
        initialized(Backend::Ring, before, after, outcome),
    ensures
        after.tls() is Some,
        before.tls() is Some ==> after.tls() == before.tls(),
        after.ours() && !before.ours() ==> offered_by(
            Backend::Ring,
            provider_view(*after.tls()->0),
        ),
        match outcome {
            Ok(state) => offered_by(Backend::Ring, state.offer),
            Err(failure) => failure is RandomGenerator,
        },
{
}

/// A provider that a FIPS build comes to said that it is in FIPS mode, has a working random
/// generator and was installed by the build itself as the default of the process.
pub proof fn fips_success_means_a_checked_provider(
    backend: Backend,
    before: ProcessDefaults,
    after: ProcessDefaults,
    outcome: Result<StateView, ErrorView>,
)
    requires
        initialized(backend, before, after, outcome),
        backend.fips(),
        outcome is Ok,
    ensures
        ready(backend, outcome->Ok_0, after),
        after.reported() == Some((outcome->Ok_0.offer, true)),
        after.tried() == Some((outcome->Ok_0.offer, TRIAL_LEN as nat, true)),
        after.ours() && !before.ours(),
        after.tls() is Some,
        provider_view(*after.tls()->0) == outcome->Ok_0.offer,
{
}

/// Initializing fails with a module that cannot be loaded only where the loader was asked for the
/// module `fips` and refused it, and then with the cause that the loader gave. Where the loader
/// handed out the module, the provider was brought up with it: that succeeded and the module is
/// held, or it failed for another reason.
pub proof fn module_failure_is_that_of_the_loader(
    backend: Backend,
    before: ProcessDefaults,
    after: ProcessDefaults,
    outcome: Result<StateView, ErrorView>,
)
    requires
        initialized(backend, before, after, outcome),
    ensures
        outcome is Err && outcome->Err_0 is LoadModule ==> {
            &&& backend is OpenSslFips
            &&& after.loaded() == Some(
                ("fips"@, Err::<(), Seq<char>>(outcome->Err_0->LoadModule_cause)),
            )
        },
        backend is OpenSslFips ==> after.loaded() is Some && (after.loaded()->0).0 == "fips"@,
        backend is OpenSslFips && (after.loaded()->0).1 is Err ==> outcome == Err::<
            StateView,
            ErrorView,
        >(ErrorView::LoadModule { cause: (after.loaded()->0).1->Err_0 }),
        backend is OpenSslFips && outcome is Ok ==> outcome->Ok_0.module == Some("fips"@),
{
}

/// Every failure to initialize a provider was brought about by what a call returned: the loader
/// refused the module, the provider said that it is not in FIPS mode, `rustls` did not install it
/// in a FIPS build, or its random generator did not fill 32 bytes. Where none of that happened, the
/// provider is there.
pub proof fn failures_come_of_calls(
    backend: Backend,
    before: ProcessDefaults,
    after: ProcessDefaults,
    outcome: Result<StateView, ErrorView>,
)
    requires
        initialized(backend, before, after, outcome),
        outcome is Err,
    ensures
        ({
            ||| backend is OpenSslFips && after.loaded() is Some && (after.loaded()->0).1 is Err
            ||| backend.fips() && after.reported() is Some && !(after.reported()->0).1
            ||| backend.fips() && after.installation() is Some && !(after.installation()->0).1
            ||| after.tried() is Some && (after.tried()->0).1 == 32 && !(after.tried()->0).2
        }),
        outcome->Err_0 is ProviderNotFips ==> backend.fips() && after.reported() is Some && !(
        after.reported()->0).1,
        outcome->Err_0 is ProviderInstalledBefore ==> backend.fips() && after.installation() is Some
            && !(after.installation()->0).1,
        outcome->Err_0 is RandomGenerator ==> after.tried() is Some && (after.tried()->0).1 == 32
            && !(after.tried()->0).2,
        outcome->Err_0 is LoadModule || outcome->Err_0 is ProviderNotFips || outcome->Err_0
            is ProviderInstalledBefore || outcome->Err_0 is RandomGenerator,
{
}

/// Where a provider was initialized, `rustls` was asked to install that very provider. Either the
/// call did, and it is now the default of the process; or the call refused, which only a build
/// without FIPS puts up with, and the default is one that was not installed here now.
pub proof fn rustls_was_asked_to_install(
    backend: Backend,
    before: ProcessDefaults,
    after: ProcessDefaults,
    outcome: Result<StateView, ErrorView>,
)
    requires
        initialized(backend, before, after, outcome),
        outcome is Ok,
    ensures
        after.tls() is Some,
        after.installation() is Some,
        (after.installation()->0).0 == outcome->Ok_0.offer,
        if (after.installation()->0).1 {
            &&& before.tls() is None
            &&& after.ours()
            &&& provider_view(*after.tls()->0) == outcome->Ok_0.offer
        } else {
            &&& !backend.fips()
            &&& after.ours() == before.ours()
        },
        after.tried() == Some((outcome->Ok_0.offer, 32nat, true)),
        backend.fips() ==> after.reported() == Some((outcome->Ok_0.offer, true)),
{
}

/// A process provider that is initialized later than it was looked at went through a real
/// initialization; one that was initialized stays as it was, with the process.
pub proof fn providers_are_initialized_once(before: ProcessProvider, later: ProcessProvider)
    requires
        before.kept(later),
    ensures
        before.outcome() is Some ==> later.outcome() == before.outcome() && later.process()
            == before.process(),
        before.outcome() is None && later.outcome() is Some ==> initialized(
            before.backend(),
            before.process(),
            later.process(),
            later.outcome()->0,
        ),
        before.process().tls() is Some ==> later.process().tls() == before.process().tls(),
        later.backend() == before.backend(),
{
}

/// The value of an initialized provider is what the provider itself offers and the name of the
/// module that is held.
pub proof fn state_values_are_complete(state: ProviderState)
    ensures
        state_view(Ok(state)) == Ok::<StateView, ErrorView>(state@),
        state@.offer == provider_view(*state.crypto),
        state.module is Some ==> state@.module == Some(module_name(state.module->0)),
        state.module is None ==> state@.module is None,
{
}

/// The outcome of an initialization is that of the provider that is held, or of the failure that
/// is.
proof fn outcome_is_what_is_held(provider: ProcessProvider)
    ensures
        provider.state is None <==> provider.outcome() is None,
        provider.state is Some ==> provider.outcome() == Some(state_view(provider.state->0)),
        provider.process() == provider.process,
        provider.backend() == provider.backend,
        provider.refused is Some ==> provider.refused() == Some(provider.refused->0@),
        provider.refused is None ==> provider.refused() is None,
{
}

} // verus!
