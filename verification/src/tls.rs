//! TLS settings, their one-time initialization and the HTTP clients made of them.

use crate::backend::{fips_groups, fips_suites, group_codes, suite_codes, Backend, BACKEND};
use crate::error::{ErrorView, TlsError};
use crate::external::client::{
    client_config, client_reports_fips, client_view, set_alpn_protocols, set_require_ems,
    ClientView, ConfigAnswer,
};
use crate::external::http::{builder_tls, preconfigured_builder, HttpTls};
use crate::external::process::ProcessDefaults;
use crate::external::provider::{provider_view, ring_groups, ring_suites, ProviderView};
use crate::external::roots::{
    anchors_in, contents, pem_certificates, trust_anchor, with_public_roots, Anchor,
};
use crate::kubernetes::{kubernetes_trust, KubernetesTls, KubernetesView};
use crate::provider::{ProcessProvider, StateView};
use crate::trust::{
    all_that_was_read_is_trusted, anchors, bundle_certificates, bundle_is_exclusive,
    bundle_is_used_or_refused, bundle_store, bundle_view, certificates, empty_file, public_store,
    roots_view, trust, BundleView, CaBundle, TrustView,
};
use reqwest::ClientBuilder;
use rustls::crypto::CryptoProvider;
use rustls::ClientConfig;
use std::sync::Arc;
use vstd::prelude::*;

verus! {

/// The TLS settings of outbound connections.
pub struct TlsSettings {
    /// The configuration of HTTP clients.
    pub http: ClientConfig,
    /// The certificates of the CA bundle, in DER, where there is one.
    pub roots: Option<Vec<Vec<u8>>>,
    /// What the configuration of HTTP clients answered, in a FIPS build.
    pub answer: Option<ConfigAnswer>,
}

/// The value of [`TlsSettings`].
#[verifier::ext_equal]
pub struct SettingsView {
    pub http: ClientView,
    pub roots: Option<Seq<Seq<u8>>>,
    /// Which configuration was asked whether it is in FIPS mode, and its answer.
    pub fips: Option<(ClientView, bool)>,
}

impl View for TlsSettings {
    type V = SettingsView;

    open spec fn view(&self) -> SettingsView {
        SettingsView {
            http: client_view(self.http),
            roots: roots_view(self.roots),
            fips: match self.answer {
                Some(answer) => Some(answer@),
                None => None,
            },
        }
    }
}

/// The value of what making TLS settings gave.
pub open spec fn settings_view(outcome: Result<TlsSettings, TlsError>) -> Result<
    SettingsView,
    ErrorView,
> {
    match outcome {
        Ok(settings) => Ok(settings@),
        Err(error) => Err(error@),
    }
}

/// The application protocols that HTTP clients offer: `h2`, then `http/1.1`.
pub open spec fn http_alpn() -> Seq<Seq<u8>> {
    seq![
        seq![0x68u8, 0x32u8],
        seq![0x68u8, 0x74u8, 0x74u8, 0x70u8, 0x2fu8, 0x31u8, 0x2eu8, 0x31u8],
    ]
}

/// The settings of a build with `backend`, whose provider makes the offer given, on what servers
/// are verified against. In a FIPS build the configuration said that it is in FIPS mode.
pub open spec fn settings_for(
    backend: Backend,
    offer: ProviderView,
    trust: TrustView,
) -> SettingsView {
    let http = ClientView {
        provider: offer,
        anchors: trust.anchors,
        tls12: true,
        tls13: true,
        client_auth: false,
        alpn: http_alpn(),
        require_ems: backend.fips(),
    };
    SettingsView {
        http,
        roots: trust.roots,
        fips: if backend.fips() {
            Some((http, true))
        } else {
            None
        },
    }
}

/// The settings of a build with `backend`, whose provider makes the offer given, under a CA bundle
/// or under none, or why there are none.
pub open spec fn planned(
    backend: Backend,
    offer: ProviderView,
    bundle: Option<BundleView>,
) -> Result<SettingsView, ErrorView> {
    match trust(bundle) {
        Err(error) => Err(error),
        Ok(trust) => match offer.refusal {
            Some(cause) => Err(ErrorView::ProtocolVersions { cause }),
            None => Ok(settings_for(backend, offer, trust)),
        },
    }
}

/// Whether `outcome` may come of the settings that were planned: they themselves, or, in a FIPS
/// build, the refusal of their configuration, where `refused` shows that it was asked and answered
/// that it is not in FIPS mode.
pub open spec fn follows(
    backend: Backend,
    plan: Result<SettingsView, ErrorView>,
    outcome: Result<SettingsView, ErrorView>,
    refused: Option<(ClientView, bool)>,
) -> bool {
    ||| outcome == plan
    ||| {
        &&& backend.fips()
        &&& plan is Ok
        &&& outcome == Err::<SettingsView, ErrorView>(ErrorView::ConfigNotFips)
        &&& refused == Some((plan->Ok_0.http, false))
    }
}

/// The application protocols that HTTP clients offer.
fn alpn_protocols() -> (protocols: Vec<Vec<u8>>)
    ensures
        contents(protocols@) == http_alpn(),
{
    let h2: Vec<u8> = vec![0x68, 0x32];
    let http11: Vec<u8> = vec![0x68, 0x74, 0x74, 0x70, 0x2f, 0x31, 0x2e, 0x31];
    let protocols: Vec<Vec<u8>> = vec![h2, http11];
    assert(contents(protocols@) =~= http_alpn()) by {
        assert(protocols@[0]@ =~= http_alpn()[0]);
        assert(protocols@[1]@ =~= http_alpn()[1]);
    }
    protocols
}

/// What a build makes of a TLS configuration that says whether it is in FIPS mode: a FIPS build
/// refuses one that is not, another build takes any.
pub fn accept_config(backend: Backend, reports_fips: bool) -> (accepted: Result<(), TlsError>)
    ensures
        accepted is Ok <==> !backend.fips() || reports_fips,
        accepted is Err ==> accepted->Err_0@ == ErrorView::ConfigNotFips,
{
    if !backend.fips() || reports_fips {
        Ok(())
    } else {
        Err(TlsError::ConfigNotFips)
    }
}

/// What came of an attempt to make TLS settings.
pub struct SettingsAttempt {
    pub settings: Result<TlsSettings, TlsError>,
    /// What the configuration of HTTP clients answered, where it was refused for that.
    pub refused: Option<ConfigAnswer>,
}

impl SettingsAttempt {
    /// The configuration that was refused, and what it had answered.
    pub open spec fn refusal(self) -> Option<(ClientView, bool)> {
        match self.refused {
            Some(answer) => Some(answer@),
            None => None,
        }
    }

    /// Whether there are settings.
    pub fn is_ok(&self) -> (ok: bool)
        ensures
            ok == (self.settings is Ok),
    {
        self.settings.is_ok()
    }

    /// Why there are no settings.
    pub fn err(self) -> (error: Option<TlsError>)
        ensures
            error == match self.settings {
                Ok(_) => None,
                Err(error) => Some(error),
            },
    {
        match self.settings {
            Ok(_) => None,
            Err(error) => Some(error),
        }
    }
}

impl TlsSettings {
    /// The configuration of HTTP clients and the certificates of the CA bundle that a build with
    /// `backend` comes to on the provider given, before it asks whether the configuration is in
    /// FIPS mode.
    pub fn unchecked(
        backend: Backend,
        provider: Arc<CryptoProvider>,
        ca_bundle: Option<CaBundle>,
    ) -> (made: Result<(ClientConfig, Option<Vec<Vec<u8>>>), TlsError>)
        ensures
            ({
                let plan = planned(backend, provider_view(*provider), bundle_view(ca_bundle));
                match made {
                    Ok((http, roots)) => {
                        &&& plan is Ok
                        &&& plan->Ok_0.http == client_view(http)
                        &&& plan->Ok_0.roots == roots_view(roots)
                    },
                    Err(error) => plan == Err::<SettingsView, ErrorView>(error@),
                }
            }),
            empty_file(bundle_view(ca_bundle)) ==> made is Err && made->Err_0@
                == ErrorView::EmptyBundle,
    {
        let ghost bundle = bundle_view(ca_bundle);
        let (store, roots) = match ca_bundle {
            Some(bundle) => {
                let ders = bundle_certificates(bundle)?;
                let store = bundle_store(&ders)?;
                (store, Some(ders))
            },
            None => (public_store(), None),
        };
        assert(trust(bundle) == Ok::<TrustView, ErrorView>(
            TrustView { anchors: anchors_in(store), roots: roots_view(roots) },
        ));
        let mut http = match client_config(provider, store) {
            Ok(http) => http,
            Err(cause) => return Err(TlsError::ProtocolVersions { cause }),
        };
        set_alpn_protocols(&mut http, alpn_protocols());
        set_require_ems(&mut http, backend.fips());
        Ok((http, roots))
    }

    /// The settings of a build with `backend` on the provider given, under a CA bundle or under
    /// none. A FIPS build asks the configuration of [`TlsSettings::unchecked`] whether it is in
    /// FIPS mode, and hands out the answer of one that it refuses.
    pub fn with_provider(
        backend: Backend,
        provider: Arc<CryptoProvider>,
        ca_bundle: Option<CaBundle>,
    ) -> (attempt: SettingsAttempt)
        ensures
            follows(
                backend,
                planned(backend, provider_view(*provider), bundle_view(ca_bundle)),
                settings_view(attempt.settings),
                attempt.refusal(),
            ),
            backend.fips() && provider_view(*provider).engine is Ring ==> attempt.settings is Err,
            empty_file(bundle_view(ca_bundle)) ==> attempt.settings is Err
                && attempt.settings->Err_0@ == ErrorView::EmptyBundle,
            attempt.refused is Some ==> attempt.settings is Err && attempt.settings->Err_0@
                == ErrorView::ConfigNotFips,
    {
        let (http, roots) = match TlsSettings::unchecked(backend, provider, ca_bundle) {
            Ok(made) => made,
            Err(error) => return SettingsAttempt { settings: Err(error), refused: None },
        };
        if !backend.fips() {
            let settings = Ok(TlsSettings { http, roots, answer: None });
            return SettingsAttempt { settings, refused: None };
        }
        let answer = client_reports_fips(&http);
        match accept_config(backend, answer.fips()) {
            Ok(()) => {
                let settings = Ok(TlsSettings { http, roots, answer: Some(answer) });
                SettingsAttempt { settings, refused: None }
            },
            Err(error) => SettingsAttempt { settings: Err(error), refused: Some(answer) },
        }
    }

    /// The settings on the provider of the process, which is initialized where that was not done
    /// before, under a CA bundle or under none.
    pub fn load(provider: &mut ProcessProvider, ca_bundle: Option<CaBundle>) -> (settings: Result<
        TlsSettings,
        TlsError,
    >)
        requires
            old(provider).wf(),
        ensures
            final(provider).wf(),
            old(provider).kept(*final(provider)),
            loaded(*final(provider), bundle_view(ca_bundle), settings_view(settings)),
            empty_file(bundle_view(ca_bundle)) ==> settings is Err,
            empty_file(bundle_view(ca_bundle)) && final(provider).outcome()->0 is Ok
                ==> settings->Err_0@ == ErrorView::EmptyBundle,
    {
        let crypto = provider.get()?;
        let attempt = TlsSettings::with_provider(provider.backend_of(), crypto, ca_bundle);
        if let Some(answer) = attempt.refused {
            provider.record_refusal(answer);
        }
        attempt.settings
    }

    /// A builder of HTTP clients that use these settings.
    pub fn client_builder(&self) -> (builder: ClientBuilder)
        ensures
            builder_tls(builder) == HttpTls::Preconfigured(self@.http),
    {
        preconfigured_builder(&self.http)
    }

    /// The Kubernetes configuration under these settings.
    pub fn kubernetes_tls(&self, backend: Backend, config: KubernetesTls) -> (configured: Result<
        KubernetesTls,
        TlsError,
    >)
        ensures
            match configured {
                Ok(configured) => kubernetes_trust(backend, self@.roots, config@) == Ok::<
                    KubernetesView,
                    ErrorView,
                >(configured@),
                Err(error) => kubernetes_trust(backend, self@.roots, config@) == Err::<
                    KubernetesView,
                    ErrorView,
                >(error@),
            },
    {
        crate::kubernetes::kubernetes_tls(backend, &self.roots, config)
    }
}

/// Whether `outcome` is what loading settings under `bundle` gives on `provider`: the failure of
/// the provider where it has one, otherwise what follows from the plan.
pub open spec fn loaded(
    provider: ProcessProvider,
    bundle: Option<BundleView>,
    outcome: Result<SettingsView, ErrorView>,
) -> bool {
    match provider.outcome() {
        None => false,
        Some(Err(failure)) => outcome == Err::<SettingsView, ErrorView>(failure),
        Some(Ok(state)) => follows(
            provider.backend(),
            planned(provider.backend(), state.offer, bundle),
            outcome,
            provider.refused(),
        ),
    }
}

/// Whether settings are as a build with `backend`, whose provider makes the offer given, has them:
/// both protocol versions, the two application protocols, in a FIPS build the extended master
/// secret and a configuration that said that it is in FIPS mode, and trust in the certificates of
/// the CA bundle alone or, without one, in the public roots.
pub open spec fn sound(backend: Backend, offer: ProviderView, settings: SettingsView) -> bool {
    &&& settings.http.provider == offer
    &&& settings.http.tls12
    &&& settings.http.tls13
    &&& !settings.http.client_auth
    &&& settings.http.alpn == http_alpn()
    &&& settings.http.require_ems == backend.fips()
    &&& backend.fips() ==> settings.fips == Some((settings.http, true))
    &&& match settings.roots {
        Some(ders) => ders.len() > 0 && anchors(ders) == Ok::<Seq<Anchor>, Seq<char>>(
            settings.http.anchors,
        ),
        None => settings.http.anchors == with_public_roots(Seq::empty()),
    }
}

/// The TLS of a process: its provider and its settings. The settings are made once, by
/// [`initialize`] or, without a CA bundle, when they are first needed; what came of that, good or
/// bad, stays.
pub struct Tls {
    provider: ProcessProvider,
    settings: Option<Result<TlsSettings, TlsError>>,
}

impl Tls {
    /// The crypto provider.
    pub closed spec fn provider(self) -> ProcessProvider {
        self.provider
    }

    /// The backend of the build.
    pub open spec fn backend(self) -> Backend {
        self.provider().backend()
    }

    /// The settings, or why there are none, once that is settled.
    pub closed spec fn settings(self) -> Option<Result<SettingsView, ErrorView>> {
        match self.settings {
            None => None,
            Some(outcome) => Some(settings_view(outcome)),
        }
    }

    /// Settings rest on the initialized provider and are sound.
    pub open spec fn wf(self) -> bool {
        &&& self.provider().wf()
        &&& self.settings() is Some ==> self.provider().outcome() is Some
        &&& self.settings() matches Some(Ok(settings)) ==> {
            &&& self.provider().outcome() is Some
            &&& self.provider().outcome()->0 is Ok
            &&& sound(self.backend(), self.provider().outcome()->0->Ok_0.offer, settings)
        }
    }

    /// Whether what was settled in `self` is still so in `later`. What was not may be settled now.
    pub open spec fn kept(self, later: Tls) -> bool {
        &&& self.provider().kept(later.provider())
        &&& self.settings() is Some ==> later.settings() == self.settings()
    }

    /// The TLS of a process that uses the backend of this build. Nothing is settled yet.
    pub fn new() -> (tls: Tls)
        ensures
            tls.wf(),
            tls.backend() == BACKEND,
            tls.provider().process().tls() is None,
            !tls.provider().process().ours(),
            tls.provider().outcome() is None,
            tls.settings() is None,
    {
        Tls::with_backend(BACKEND, ProcessDefaults::new())
    }

    /// The TLS of a process that uses `backend` and of whose defaults `process` is known. Nothing
    /// is settled yet.
    pub fn with_backend(backend: Backend, process: ProcessDefaults) -> (tls: Tls)
        ensures
            tls.wf(),
            tls.backend() == backend,
            tls.provider().process() == process,
            tls.provider().outcome() is None,
            tls.settings() is None,
    {
        Tls { provider: ProcessProvider::new(backend, process), settings: None }
    }

    /// Settles the settings, without a CA bundle, where that was not done before.
    fn settle(&mut self)
        requires
            old(self).wf(),
        ensures
            final(self).wf(),
            old(self).kept(*final(self)),
            final(self).settings() is Some,
            old(self).settings() is None ==> loaded(
                final(self).provider(),
                None,
                final(self).settings()->0,
            ),
    {
        if self.settings.is_none() {
            let outcome = TlsSettings::load(&mut self.provider, None);
            self.settings = Some(outcome);
        }
    }
}

/// Initializes the crypto provider where that was not done before, so that a CA bundle need not be
/// read where there is no provider. The settings stay as they are.
pub fn prepare(tls: &mut Tls) -> (prepared: Result<(), TlsError>)
    requires
        old(tls).wf(),
    ensures
        final(tls).wf(),
        old(tls).kept(*final(tls)),
        final(tls).settings() == old(tls).settings(),
        final(tls).provider().outcome() is Some,
        match prepared {
            Ok(()) => final(tls).provider().outcome()->0 is Ok,
            Err(error) => final(tls).provider().outcome()->0 == Err::<StateView, ErrorView>(error@),
        },
{
    match tls.provider.get() {
        Ok(_) => Ok(()),
        Err(error) => Err(error),
    }
}

/// Settles the TLS settings under a CA bundle or under none. This is to be called once, before
/// anything needs the settings: where they are settled it fails and changes nothing.
pub fn initialize(tls: &mut Tls, ca_bundle: Option<CaBundle>) -> (initialized: Result<(), TlsError>)
    requires
        old(tls).wf(),
    ensures
        final(tls).wf(),
        old(tls).kept(*final(tls)),
        old(tls).settings() is Some ==> {
            &&& initialized is Err
            &&& initialized->Err_0@ == ErrorView::AlreadyInitialized
            &&& *final(tls) == *old(tls)
        },
        old(tls).settings() is None ==> {
            &&& final(tls).settings() is Some
            &&& loaded(final(tls).provider(), bundle_view(ca_bundle), final(tls).settings()->0)
            &&& match initialized {
                Ok(()) => final(tls).settings()->0 is Ok,
                Err(error) => final(tls).settings()->0 == Err::<SettingsView, ErrorView>(error@),
            }
        },
        empty_file(bundle_view(ca_bundle)) ==> initialized is Err,
        empty_file(bundle_view(ca_bundle)) && old(tls).settings() is None
            && final(tls).provider().outcome()->0 is Ok ==> initialized->Err_0@
            == ErrorView::EmptyBundle,
{
    if tls.settings.is_some() {
        return Err(TlsError::AlreadyInitialized);
    }
    let outcome = TlsSettings::load(&mut tls.provider, ca_bundle);
    let initialized = match &outcome {
        Ok(_) => Ok(()),
        Err(error) => Err(error.repeat()),
    };
    tls.settings = Some(outcome);
    initialized
}

/// A builder of HTTP clients that use the settings of the process. Where they are not settled yet,
/// they are now, without a CA bundle.
pub fn client_builder(tls: &mut Tls) -> (builder: Result<ClientBuilder, TlsError>)
    requires
        old(tls).wf(),
    ensures
        final(tls).wf(),
        old(tls).kept(*final(tls)),
        final(tls).settings() is Some,
        old(tls).settings() is None ==> loaded(
            final(tls).provider(),
            None,
            final(tls).settings()->0,
        ),
        match builder {
            Ok(builder) => final(tls).settings()->0 is Ok && builder_tls(builder)
                == HttpTls::Preconfigured(final(tls).settings()->0->Ok_0.http),
            Err(error) => final(tls).settings()->0 == Err::<SettingsView, ErrorView>(error@),
        },
{
    tls.settle();
    match tls.settings.as_ref().unwrap() {
        Ok(settings) => Ok(settings.client_builder()),
        Err(error) => Err(error.repeat()),
    }
}

/// The Kubernetes configuration under the settings of the process. Where they are not settled yet,
/// they are now, without a CA bundle.
pub fn kubernetes_tls(tls: &mut Tls, config: KubernetesTls) -> (configured: Result<
    KubernetesTls,
    TlsError,
>)
    requires
        old(tls).wf(),
    ensures
        final(tls).wf(),
        old(tls).kept(*final(tls)),
        final(tls).settings() is Some,
        old(tls).settings() is None ==> loaded(
            final(tls).provider(),
            None,
            final(tls).settings()->0,
        ),
        match final(tls).settings()->0 {
            Err(failure) => configured is Err && configured->Err_0@ == failure,
            Ok(settings) => match configured {
                Ok(configured) => kubernetes_trust(old(tls).backend(), settings.roots, config@)
                    == Ok::<KubernetesView, ErrorView>(configured@),
                Err(error) => kubernetes_trust(old(tls).backend(), settings.roots, config@)
                    == Err::<KubernetesView, ErrorView>(error@),
            },
        },
{
    tls.settle();
    let backend = tls.provider.backend_of();
    match tls.settings.as_ref().unwrap() {
        Ok(settings) => settings.kubernetes_tls(backend, config),
        Err(error) => Err(error.repeat()),
    }
}

/// Whatever the build, the provider and the CA bundle: settings that are planned are sound.
pub proof fn planned_settings_are_sound(
    backend: Backend,
    offer: ProviderView,
    bundle: Option<BundleView>,
)
    ensures
        planned(backend, offer, bundle) matches Ok(settings) ==> sound(backend, offer, settings),
{
}

/// Settings use the cryptography that the backend of the build fixes: a default build uses `ring`,
/// and an OpenSSL FIPS build offers its six suites and two groups, whatever else the library at run
/// time could do.
pub proof fn algorithms_are_fixed_by_the_backend(tls: Tls)
    requires
        tls.wf(),
        tls.settings() is Some,
        tls.settings()->0 is Ok,
    ensures
        ({
            let offer = tls.settings()->0->Ok_0.http.provider;
            match tls.backend() {
                Backend::Ring => offer.engine is Ring && offer.suites == ring_suites()
                    && offer.groups == ring_groups(),
                Backend::OpenSslFips => offer.engine is OpenSsl && offer.suites == suite_codes(
                    fips_suites(),
                ) && offer.groups == group_codes(fips_groups()),
                Backend::AwsLcFips => offer.engine is AwsLc,
            }
        }),
{
}

/// Settings of a FIPS build require the extended master secret and use the very cryptography that
/// the build installed as the default of the process; it is not that of `ring`. The provider and
/// the configuration both said that they are in FIPS mode.
pub proof fn fips_settings_are_verified(tls: Tls)
    requires
        tls.wf(),
        tls.backend().fips(),
        tls.settings() is Some,
        tls.settings()->0 is Ok,
    ensures
        ({
            let settings = tls.settings()->0->Ok_0;
            let http = settings.http;
            &&& http.require_ems
            &&& settings.fips == Some((http, true))
            &&& tls.provider().process().reported() == Some((http.provider, true))
            &&& !(http.provider.engine is Ring)
            &&& tls.provider().process().tls() is Some
            &&& provider_view(*tls.provider().process().tls()->0) == http.provider
        }),
{
}

/// Settings of a default build do not require the extended master secret and rest on `ring`, which
/// is never in FIPS mode.
pub proof fn default_settings_are_without_fips(tls: Tls)
    requires
        tls.wf(),
        !tls.backend().fips(),
        tls.settings() is Some,
        tls.settings()->0 is Ok,
    ensures
        !tls.settings()->0->Ok_0.http.require_ems,
        tls.settings()->0->Ok_0.http.provider.engine is Ring,
{
}

/// A provider that could not be initialized leaves no settings, with a CA bundle or without: there
/// is no other cryptography to fall back to.
pub proof fn failed_provider_leaves_no_settings(
    provider: ProcessProvider,
    bundle: Option<BundleView>,
    outcome: Result<SettingsView, ErrorView>,
)
    requires
        provider.outcome() is Some,
        provider.outcome()->0 is Err,
        loaded(provider, bundle, outcome),
    ensures
        outcome == Err::<SettingsView, ErrorView>(provider.outcome()->0->Err_0),
{
}

/// A CA bundle that cannot be used leaves no settings: the public roots never take its place.
pub proof fn unusable_bundle_leaves_no_settings(
    provider: ProcessProvider,
    bundle: BundleView,
    outcome: Result<SettingsView, ErrorView>,
)
    requires
        loaded(provider, Some(bundle), outcome),
        trust(Some(bundle)) is Err,
    ensures
        outcome is Err,
        provider.outcome()->0 is Ok ==> outcome == Err::<SettingsView, ErrorView>(
            trust(Some(bundle))->Err_0,
        ),
{
}

/// A build without FIPS comes to settings wherever its provider is ready and the CA bundle, if
/// there is one, can be used; what else it finds in the process does not matter.
pub proof fn default_build_fails_on_the_bundle_only(
    offer: ProviderView,
    bundle: Option<BundleView>,
    outcome: Result<SettingsView, ErrorView>,
    refused: Option<(ClientView, bool)>,
)
    requires
        crate::provider::offered_by(Backend::Ring, offer),
        follows(Backend::Ring, planned(Backend::Ring, offer, bundle), outcome, refused),
    ensures
        outcome == match trust(bundle) {
            Ok(trust) => Ok(settings_for(Backend::Ring, offer, trust)),
            Err(error) => Err(error),
        },
        bundle is None ==> outcome is Ok,
{
}

/// The certificates of a CA bundle are what HTTP and Kubernetes trust alike: HTTP clients in the
/// anchors of these certificates, one for one, and Kubernetes in the certificates, whatever roots
/// its configuration had.
pub proof fn bundle_replaces_all_roots(
    backend: Backend,
    offer: ProviderView,
    bundle: BundleView,
    config: KubernetesView,
)
    ensures
        planned(backend, offer, Some(bundle)) matches Ok(settings) ==> {
            let ders = certificates(bundle)->Ok_0;
            &&& certificates(bundle) is Ok
            &&& ders.len() > 0
            &&& settings.http.anchors.len() == ders.len()
            &&& forall|i: int|
                0 <= i < ders.len() ==> crate::external::roots::trust_anchor(ders[i]) == Ok::<
                    Anchor,
                    Seq<char>,
                >(#[trigger] settings.http.anchors[i])
            &&& kubernetes_trust(backend, settings.roots, config) matches Ok(configured)
                ==> configured == (KubernetesView { root_cert: Some(ders), ..config })
        },
{
    bundle_is_exclusive(bundle);
}

/// Without a CA bundle, HTTP clients trust the public roots, and the Kubernetes configuration
/// keeps the roots that it has.
pub proof fn no_bundle_keeps_usual_roots(
    backend: Backend,
    offer: ProviderView,
    config: KubernetesView,
)
    ensures
        planned(backend, offer, None) matches Ok(settings) ==> {
            &&& settings.http.anchors == with_public_roots(Seq::empty())
            &&& kubernetes_trust(backend, settings.roots, config) matches Ok(configured)
                ==> configured == config
        },
{
}

/// What was settled once is settled for good: over any sequence of steps that each keep what was
/// settled before, as every operation on [`Tls`] does, the first outcome stays.
pub proof fn first_outcome_stays(history: Seq<Tls>, i: int, j: int)
    requires
        0 <= i <= j < history.len(),
        forall|k: int|
            #![trigger history[k]]
            0 <= k < history.len() - 1 ==> history[k].kept(history[k + 1]),
    ensures
        history[i].kept(history[j]),
    decreases j - i,
{
    if i < j {
        first_outcome_stays(history, i, j - 1);
        assert(history[j - 1].kept(history[(j - 1) + 1]));
    }
}

/// Settings that were loaded under a CA bundle trust exactly the certificates that were read from
/// its text, all of them and in their order: HTTP clients in the anchor of each, Kubernetes in the
/// certificates themselves, whatever roots its configuration had.
pub proof fn loaded_settings_trust_all_that_was_read(
    provider: ProcessProvider,
    pem: Seq<u8>,
    outcome: Result<SettingsView, ErrorView>,
    config: KubernetesView,
)
    requires
        loaded(provider, Some(BundleView::Contents(pem)), outcome),
        outcome is Ok,
    ensures
        ({
            let read = pem_certificates(pem)->Ok_0;
            let settings = outcome->Ok_0;
            &&& pem_certificates(pem) is Ok
            &&& read.len() > 0
            &&& settings.roots == Some(read)
            &&& settings.http.anchors.len() == read.len()
            &&& forall|i: int|
                0 <= i < read.len() ==> trust_anchor(read[i]) == Ok::<Anchor, Seq<char>>(
                    #[trigger] settings.http.anchors[i],
                )
            &&& kubernetes_trust(provider.backend(), settings.roots, config) matches Ok(configured)
                ==> configured.root_cert == Some(read) && configured.accept_invalid_certs
                == config.accept_invalid_certs
        }),
{
    all_that_was_read_is_trusted(pem);
}

/// A CA bundle is enough for settings where its text can be read, it holds a certificate and each
/// of them makes a trust anchor: a build whose provider is ready has settings then, unless it is a
/// FIPS build whose configuration said that it is not in FIPS mode.
pub proof fn usable_bundle_gives_settings(
    provider: ProcessProvider,
    pem: Seq<u8>,
    outcome: Result<SettingsView, ErrorView>,
)
    requires
        provider.wf(),
        loaded(provider, Some(BundleView::Contents(pem)), outcome),
        provider.outcome()->0 is Ok,
        pem_certificates(pem) is Ok,
        pem_certificates(pem)->Ok_0.len() > 0,
        forall|i: int|
            0 <= i < pem_certificates(pem)->Ok_0.len() ==> trust_anchor(
                #[trigger] pem_certificates(pem)->Ok_0[i],
            ) is Ok,
    ensures
        outcome is Ok || {
            &&& provider.backend().fips()
            &&& outcome == Err::<SettingsView, ErrorView>(ErrorView::ConfigNotFips)
            &&& provider.refused() is Some
            &&& !(provider.refused()->0).1
        },
{
    bundle_is_used_or_refused(BundleView::Contents(pem));
}

/// Without a CA bundle, a build whose provider is ready has settings on the public roots, unless it
/// is a FIPS build whose configuration said that it is not in FIPS mode.
pub proof fn no_bundle_gives_settings(
    provider: ProcessProvider,
    outcome: Result<SettingsView, ErrorView>,
)
    requires
        provider.wf(),
        loaded(provider, None, outcome),
        provider.outcome()->0 is Ok,
    ensures
        match outcome {
            Ok(settings) => settings.http.anchors == with_public_roots(Seq::empty())
                && settings.roots is None,
            Err(error) => {
                &&& provider.backend().fips()
                &&& error == ErrorView::ConfigNotFips
                &&& provider.refused() is Some
                &&& !(provider.refused()->0).1
            },
        },
{
}

/// Settings are refused for a configuration that is not in FIPS mode only in a FIPS build, and only
/// where that configuration was asked and said so. It is the one that the settings would have had:
/// on the provider of the process and the anchors of the bundle, with both protocol versions, both
/// application protocols and the extended master secret.
pub proof fn refused_configuration_answered_no(
    provider: ProcessProvider,
    bundle: Option<BundleView>,
    outcome: Result<SettingsView, ErrorView>,
)
    requires
        loaded(provider, bundle, outcome),
        provider.outcome()->0 is Ok,
        outcome == Err::<SettingsView, ErrorView>(ErrorView::ConfigNotFips),
    ensures
        provider.backend().fips(),
        trust(bundle) is Ok,
        provider.refused() is Some,
        ({
            let (asked, answer) = provider.refused()->0;
            &&& !answer
            &&& asked.provider == provider.outcome()->0->Ok_0.offer
            &&& asked.anchors == trust(bundle)->Ok_0.anchors
            &&& asked.tls12
            &&& asked.tls13
            &&& !asked.client_auth
            &&& asked.alpn == http_alpn()
            &&& asked.require_ems
        }),
{
    if bundle is Some {
        bundle_is_exclusive(bundle->0);
    }
}

/// The same of an attempt on a given provider: where no configuration was refused, the outcome is
/// the plan, and a refused one answered that it is not in FIPS mode.
pub proof fn accepted_configuration_gives_the_plan(
    backend: Backend,
    plan: Result<SettingsView, ErrorView>,
    outcome: Result<SettingsView, ErrorView>,
    refused: Option<(ClientView, bool)>,
)
    requires
        follows(backend, plan, outcome, refused),
    ensures
        outcome == plan || (backend.fips() && plan is Ok && outcome == Err::<
            SettingsView,
            ErrorView,
        >(ErrorView::ConfigNotFips) && refused == Some((plan->Ok_0.http, false))),
        refused is None ==> outcome == plan,
        refused is Some && (refused->0).1 ==> outcome == plan,
        !backend.fips() ==> outcome == plan,
{
}

/// What every build lays down in its settings, whatever the bundle: the provider of the process,
/// TLS 1.2 and TLS 1.3, no client certificate, `h2` before `http/1.1`, and the extended master
/// secret exactly in a FIPS build, whose configuration said that it is in FIPS mode.
pub proof fn loaded_settings_are_laid_down(
    provider: ProcessProvider,
    bundle: Option<BundleView>,
    outcome: Result<SettingsView, ErrorView>,
)
    requires
        loaded(provider, bundle, outcome),
        outcome is Ok,
    ensures
        provider.outcome() is Some,
        provider.outcome()->0 is Ok,
        ({
            let settings = outcome->Ok_0;
            &&& settings.http.provider == provider.outcome()->0->Ok_0.offer
            &&& settings.http.tls12
            &&& settings.http.tls13
            &&& !settings.http.client_auth
            &&& settings.http.alpn.len() == 2
            &&& settings.http.alpn[0] == seq![0x68u8, 0x32u8]
            &&& settings.http.alpn[1] == seq![
                0x68u8, 0x74u8, 0x74u8, 0x70u8, 0x2fu8, 0x31u8, 0x2eu8, 0x31u8,
            ]
            &&& settings.http.require_ems == provider.backend().fips()
            &&& provider.backend().fips() ==> settings.fips == Some((settings.http, true))
        }),
{
}

/// Settings stand on a provider that `rustls` was really asked to install: the call installed it,
/// and it is the default of the process; or, in a build without FIPS, the process has another
/// default.
pub proof fn settings_rest_on_an_installation(tls: Tls)
    requires
        tls.wf(),
        tls.settings() is Some,
        tls.settings()->0 is Ok,
    ensures
        ({
            let process = tls.provider().process();
            let used = tls.settings()->0->Ok_0.http.provider;
            &&& process.tls() is Some
            &&& process.installation() is Some
            &&& (process.installation()->0).0 == used
            &&& (process.installation()->0).1 ==> provider_view(*process.tls()->0) == used
            &&& !(process.installation()->0).1 ==> !tls.backend().fips()
        }),
{
}

/// The settings of a process, once settled, never change, and neither does its provider.
pub proof fn settled_settings_stay(before: Tls, later: Tls)
    requires
        before.kept(later),
    ensures
        later.backend() == before.backend(),
        before.settings() is Some ==> later.settings() == before.settings(),
        before.provider().outcome() is Some ==> later.provider().outcome()
            == before.provider().outcome() && later.provider().process()
            == before.provider().process(),
{
}

/// The value of settings is what their configuration lays down, the value of every certificate of
/// the bundle, and the answer of the configuration.
pub proof fn settings_values_are_complete(settings: TlsSettings)
    ensures
        settings_view(Ok(settings)) == Ok::<SettingsView, ErrorView>(settings@),
        settings@.http == client_view(settings.http),
        settings@.roots is Some <==> settings.roots is Some,
        settings.roots is Some ==> settings@.roots == Some(contents(settings.roots->0@)),
        settings.answer is Some ==> settings@.fips == Some(settings.answer->0@),
        settings.answer is None ==> settings@.fips is None,
{
}

/// The settings of a process are those that are held, or the failure that is.
proof fn settings_are_what_is_held(tls: Tls)
    ensures
        tls.settings is None <==> tls.settings() is None,
        tls.settings is Some ==> tls.settings() == Some(settings_view(tls.settings->0)),
        tls.provider() == tls.provider,
{
}

} // verus!
