//! The cryptographic backends and the algorithms that a FIPS build offers.

use vstd::prelude::*;

verus! {

/// What provides the cryptography of TLS. A build has exactly one backend.
#[derive(Clone, Copy, Debug, PartialEq, Eq, Structural)]
pub enum Backend {
    /// The `ring` crate, the default.
    Ring,
    /// The OpenSSL library found at run time, in FIPS mode.
    OpenSslFips,
    /// The AWS-LC FIPS module. It takes a `rustls` that is built with its `fips` feature: with
    /// another one the provider is never in FIPS mode, and initializing it fails.
    AwsLcFips,
}

/// The backend of this build. A build for [`Backend::AwsLcFips`] also switches on the `fips`
/// feature of `rustls`.
pub const BACKEND: Backend = Backend::Ring;

impl Backend {
    /// Whether a build with this backend is a FIPS build.
    pub open spec fn spec_fips(self) -> bool {
        !(self is Ring)
    }

    /// Whether a build with this backend is a FIPS build.
    #[verifier::when_used_as_spec(spec_fips)]
    pub fn fips(self) -> (fips: bool)
        ensures
            fips == self.fips(),
    {
        match self {
            Backend::Ring => false,
            Backend::OpenSslFips => true,
            Backend::AwsLcFips => true,
        }
    }
}

/// A cipher suite that an OpenSSL FIPS build may offer.
#[derive(Clone, Copy, Debug, PartialEq, Eq, Structural)]
pub enum CipherSuite {
    Tls13Aes256GcmSha384,
    Tls13Aes128GcmSha256,
    EcdheEcdsaAes256GcmSha384,
    EcdheRsaAes256GcmSha384,
    EcdheEcdsaAes128GcmSha256,
    EcdheRsaAes128GcmSha256,
}

impl CipherSuite {
    /// The number that IANA assigns to the suite.
    pub open spec fn code(self) -> u16 {
        match self {
            CipherSuite::Tls13Aes256GcmSha384 => 0x1302,
            CipherSuite::Tls13Aes128GcmSha256 => 0x1301,
            CipherSuite::EcdheEcdsaAes256GcmSha384 => 0xc02c,
            CipherSuite::EcdheRsaAes256GcmSha384 => 0xc030,
            CipherSuite::EcdheEcdsaAes128GcmSha256 => 0xc02b,
            CipherSuite::EcdheRsaAes128GcmSha256 => 0xc02f,
        }
    }
}

/// A key exchange group that an OpenSSL FIPS build may offer.
#[derive(Clone, Copy, Debug, PartialEq, Eq, Structural)]
pub enum KeyExchange {
    Secp384r1,
    Secp256r1,
}

impl KeyExchange {
    /// The number that IANA assigns to the group.
    pub open spec fn code(self) -> u16 {
        match self {
            KeyExchange::Secp384r1 => 0x0018,
            KeyExchange::Secp256r1 => 0x0017,
        }
    }
}

/// The numbers of a list of cipher suites, in the same order.
pub open spec fn suite_codes(suites: Seq<CipherSuite>) -> Seq<u16> {
    Seq::new(suites.len(), |i: int| suites[i].code())
}

/// The numbers of a list of key exchange groups, in the same order.
pub open spec fn group_codes(groups: Seq<KeyExchange>) -> Seq<u16> {
    Seq::new(groups.len(), |i: int| groups[i].code())
}

/// The cipher suites of an OpenSSL FIPS build, most preferred first.
pub open spec fn fips_suites() -> Seq<CipherSuite> {
    seq![
        CipherSuite::Tls13Aes256GcmSha384,
        CipherSuite::Tls13Aes128GcmSha256,
        CipherSuite::EcdheEcdsaAes256GcmSha384,
        CipherSuite::EcdheRsaAes256GcmSha384,
        CipherSuite::EcdheEcdsaAes128GcmSha256,
        CipherSuite::EcdheRsaAes128GcmSha256,
    ]
}

/// The key exchange groups of an OpenSSL FIPS build, most preferred first.
pub open spec fn fips_groups() -> Seq<KeyExchange> {
    seq![KeyExchange::Secp384r1, KeyExchange::Secp256r1]
}

/// The cipher suites of an OpenSSL FIPS build, most preferred first. The list is fixed: it does
/// not grow with what the library at run time could do.
pub fn fips_cipher_suites() -> (suites: Vec<CipherSuite>)
    ensures
        suites@ == fips_suites(),
{
    vec![
        CipherSuite::Tls13Aes256GcmSha384,
        CipherSuite::Tls13Aes128GcmSha256,
        CipherSuite::EcdheEcdsaAes256GcmSha384,
        CipherSuite::EcdheRsaAes256GcmSha384,
        CipherSuite::EcdheEcdsaAes128GcmSha256,
        CipherSuite::EcdheRsaAes128GcmSha256,
    ]
}

/// The key exchange groups of an OpenSSL FIPS build, most preferred first.
pub fn fips_key_exchanges() -> (groups: Vec<KeyExchange>)
    ensures
        groups@ == fips_groups(),
{
    vec![KeyExchange::Secp384r1, KeyExchange::Secp256r1]
}

} // verus!
