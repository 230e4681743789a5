//! Crypto providers of `rustls`: what they offer and where they come from.

use crate::backend::{group_codes, suite_codes, CipherSuite, KeyExchange};
use openssl::provider::Provider as OpenSslModule;
use rustls::crypto::CryptoProvider;
use rustls_openssl::{cipher_suite, kx_group};
use vstd::prelude::*;

verus! {

/// A crypto provider of `rustls`. What is inside is told by [`provider_view`].
#[verifier::external_type_specification]
#[verifier::external_body]
pub struct ExCryptoProvider(rustls::crypto::CryptoProvider);

/// A provider module that the OpenSSL library holds loaded.
#[verifier::external_type_specification]
#[verifier::external_body]
pub struct ExOpenSslModule(openssl::provider::Provider);

/// The library that does the cryptography of a provider.
pub enum Engine {
    Ring,
    OpenSsl,
    AwsLc,
    Other,
}

/// What a crypto provider offers.
pub struct ProviderView {
    /// The library behind the random generator and the keys of the provider.
    pub engine: Engine,
    /// The IANA numbers of the cipher suites, most preferred first.
    pub suites: Seq<u16>,
    /// The IANA numbers of the key exchange groups, most preferred first.
    pub groups: Seq<u16>,
    /// Why a client configuration with the default protocol versions refuses the provider, or
    /// `None` where it accepts it.
    pub refusal: Option<Seq<char>>,
}

/// What the crypto provider `provider` offers.
pub uninterp spec fn provider_view(provider: CryptoProvider) -> ProviderView;

/// The cipher suites of the `ring` provider, most preferred first.
pub open spec fn ring_suites() -> Seq<u16> {
    seq![
        0x1302u16,
        0x1301u16,
        0x1303u16,
        0xc02cu16,
        0xc02bu16,
        0xcca9u16,
        0xc030u16,
        0xc02fu16,
        0xcca8u16,
    ]
}

/// The key exchange groups of the `ring` provider, most preferred first.
pub open spec fn ring_groups() -> Seq<u16> {
    seq![0x001du16, 0x0017u16, 0x0018u16]
}

/// Calls `rustls::crypto::ring::default_provider`. Assumed: the provider rests on `ring`, offers
/// the three TLS 1.3 suites and the six ECDHE suites of TLS 1.2 in the order of its list, the
/// groups X25519, secp256r1 and secp384r1, and fits the default protocol versions.
#[verifier::external_body]
pub(crate) fn ring_provider() -> (provider: CryptoProvider)
    ensures
        provider_view(provider).engine is Ring,
        provider_view(provider).suites == ring_suites(),
        provider_view(provider).groups == ring_groups(),
        provider_view(provider).refusal is None,
{
    rustls::crypto::ring::default_provider()
}

/// Calls `rustls::crypto::aws_lc_rs::default_provider`, which is what
/// `rustls::crypto::default_fips_provider` returns where `rustls` is built for FIPS. Assumed: the
/// provider rests on AWS-LC and fits the default protocol versions. Its lists differ between a
/// FIPS build and another build of `rustls`, so nothing is said of them.
#[verifier::external_body]
pub(crate) fn aws_lc_provider() -> (provider: CryptoProvider)
    ensures
        provider_view(provider).engine is AwsLc,
        provider_view(provider).refusal is None,
{
    rustls::crypto::aws_lc_rs::default_provider()
}

/// Calls `rustls_openssl::custom_provider`. Assumed: the provider rests on OpenSSL and offers
/// exactly the suites and groups given, in the order given. All of them are TLS 1.3 or ECDHE
/// suites and elliptic curve groups, so the provider fits the default protocol versions where
/// neither list is empty.
#[verifier::external_body]
pub(crate) fn openssl_provider(suites: &Vec<CipherSuite>, groups: &Vec<KeyExchange>) -> (provider:
    CryptoProvider)
    ensures
        provider_view(provider).engine is OpenSsl,
        provider_view(provider).suites == suite_codes(suites@),
        provider_view(provider).groups == group_codes(groups@),
        suites@.len() > 0 && groups@.len() > 0 ==> provider_view(provider).refusal is None,
{
    let suite = |s: &CipherSuite| match s {
        CipherSuite::Tls13Aes256GcmSha384 => cipher_suite::TLS13_AES_256_GCM_SHA384,
        CipherSuite::Tls13Aes128GcmSha256 => cipher_suite::TLS13_AES_128_GCM_SHA256,
        CipherSuite::EcdheEcdsaAes256GcmSha384 => cipher_suite::TLS_ECDHE_ECDSA_WITH_AES_256_GCM_SHA384,
        CipherSuite::EcdheRsaAes256GcmSha384 => cipher_suite::TLS_ECDHE_RSA_WITH_AES_256_GCM_SHA384,
        CipherSuite::EcdheEcdsaAes128GcmSha256 => cipher_suite::TLS_ECDHE_ECDSA_WITH_AES_128_GCM_SHA256,
        CipherSuite::EcdheRsaAes128GcmSha256 => cipher_suite::TLS_ECDHE_RSA_WITH_AES_128_GCM_SHA256,
    };
    let group = |g: &KeyExchange| match g {
        KeyExchange::Secp384r1 => kx_group::SECP384R1,
        KeyExchange::Secp256r1 => kx_group::SECP256R1,
    };
    rustls_openssl::custom_provider(suites.iter().map(suite).collect(), groups.iter().map(group).collect())
}

/// The name under which the loaded module `module` was asked for.
pub uninterp spec fn module_name(module: OpenSslModule) -> Seq<char>;

/// What came of an attempt to load an OpenSSL module. Its view is the name of the module, and
/// whether it was loaded or the text of the error. There is no report without the attempt.
pub struct ModuleReport {
    name: Ghost<Seq<char>>,
    refusal: Option<String>,
}

impl View for ModuleReport {
    type V = (Seq<char>, Result<(), Seq<char>>);

    closed spec fn view(&self) -> (Seq<char>, Result<(), Seq<char>>) {
        (
            self.name@,
            match self.refusal {
                Some(cause) => Err(cause@),
                None => Ok(()),
            },
        )
    }
}

/// Calls `openssl::provider::Provider::load` on the default library context, which loads the module
/// `name`, or tells why it cannot, and reports on that. Assumed: a module that comes back is the
/// one of that name. Whether one does depends on the OpenSSL library at run time, its configuration
/// and the modules on disk. The call panics on a name with a NUL.
#[verifier::external_body]
pub(crate) fn load_openssl_module(name: &str) -> (loaded: (
    Result<OpenSslModule, String>,
    ModuleReport,
))
    requires
        forall|i: int| 0 <= i < name@.len() ==> name@[i] != '\0',
    ensures
        loaded.0 matches Ok(module) ==> module_name(module) == name@,
        loaded.1@ == (
            name@,
            match loaded.0 {
                Ok(_) => Ok::<(), Seq<char>>(()),
                Err(cause) => Err(cause@),
            },
        ),
{
    let loaded = OpenSslModule::load(None, name).map_err(|error| error.to_string());
    let refusal = loaded.as_ref().err().cloned();
    (loaded, ModuleReport { name: Ghost(name@), refusal })
}

/// What a crypto provider answered to the question whether it is in FIPS mode. Its view is what
/// the provider offers, and the answer. There is no answer without the question.
pub struct FipsAnswer {
    provider: Ghost<ProviderView>,
    fips: bool,
}

impl View for FipsAnswer {
    type V = (ProviderView, bool);

    closed spec fn view(&self) -> (ProviderView, bool) {
        (self.provider@, self.fips)
    }
}

impl FipsAnswer {
    /// Whether the provider said that it is in FIPS mode.
    pub fn fips(&self) -> (fips: bool)
        ensures
            fips == self@.1,
    {
        self.fips
    }
}

/// What came of a trial of the random generator of a crypto provider. Its view is what the provider
/// offers, how many bytes were to be drawn, and whether that succeeded. There is no result without
/// the trial.
pub struct RandomTrial {
    provider: Ghost<ProviderView>,
    drawn: usize,
    filled: bool,
}

impl View for RandomTrial {
    type V = (ProviderView, nat, bool);

    closed spec fn view(&self) -> (ProviderView, nat, bool) {
        (self.provider@, self.drawn as nat, self.filled)
    }
}

impl RandomTrial {
    /// Whether the trial succeeded.
    pub fn filled(&self) -> (filled: bool)
        ensures
            filled == self@.2,
    {
        self.filled
    }
}

/// Calls `CryptoProvider::fips`, which asks every part of the provider whether it is in FIPS
/// mode. OpenSSL and AWS-LC answer by their state at run time. Assumed: the answer is that of the
/// provider given, and `ring` never is in FIPS mode.
#[verifier::external_body]
pub(crate) fn provider_reports_fips(provider: &CryptoProvider) -> (answer: FipsAnswer)
    ensures
        answer@.0 == provider_view(*provider),
        provider_view(*provider).engine is Ring ==> !answer@.1,
{
    FipsAnswer { provider: Ghost(provider_view(*provider)), fips: provider.fips() }
}

/// Calls `SecureRandom::fill` of the provider on a buffer and tells whether that worked. Assumed:
/// the bytes are drawn from that provider, as many as the buffer holds, which stays as long.
/// Whether the call works depends on the machine. OpenSSL counts the bytes in 32 bits with a sign
/// and panics on a longer buffer.
#[verifier::external_body]
pub(crate) fn fill_random(provider: &CryptoProvider, buffer: &mut Vec<u8>) -> (trial: RandomTrial)
    requires
        old(buffer)@.len() <= i32::MAX,
    ensures
        trial@.0 == provider_view(*provider),
        trial@.1 == old(buffer)@.len(),
        final(buffer)@.len() == old(buffer)@.len(),
{
    let filled = provider.secure_random.fill(buffer).is_ok();
    RandomTrial { provider: Ghost(provider_view(*provider)), drawn: buffer.len(), filled }
}

} // verus!
