use jsonwebtoken::crypto::{aws_lc, CryptoProvider as TokenProvider, JwkUtils};
use rustls::crypto::CryptoProvider;
use sgl_tls::backend::Backend;
use sgl_tls::crypto::{
    apply_fips_tls_backend, apply_tls_backend, check_installed, check_tokens,
    ensure_crypto_provider_installed, install_provider, process_backend, CryptoError,
};
use sgl_tls::external::process::ProcessDefaults;
use sgl_tls::provider::provider;

#[test]
fn test_aws_lc_rs_is_default_provider() {
    let provider = rustls::crypto::aws_lc_rs::default_provider();
    let _ = provider.install_default();

    let installed = CryptoProvider::get_default();
    assert!(
        installed.is_some(),
        "A default CryptoProvider must be installed"
    );
}

#[test]
fn test_ring_cannot_override_aws_lc_rs() {
    let _ = rustls::crypto::aws_lc_rs::default_provider().install_default();

    let ring_result = rustls::crypto::ring::default_provider().install_default();
    assert!(
        ring_result.is_err(),
        "ring must not be able to override the already-installed aws-lc-rs provider"
    );

    let before = format!("{:?}", CryptoProvider::get_default().unwrap());
    let mut process = ProcessDefaults::new();
    assert_eq!(ensure_crypto_provider_installed(&mut process), Ok(false));
    let after = process.tls_provider().as_ref().unwrap();
    assert_eq!(format!("{after:?}"), before);
}

#[test]
fn only_the_first_call_installs_the_provider() {
    let mut process = ProcessDefaults::new();
    assert!(process.tls_provider().is_none());
    assert_eq!(ensure_crypto_provider_installed(&mut process), Ok(true));
    assert_eq!(ensure_crypto_provider_installed(&mut process), Ok(false));
    assert_eq!(
        ensure_crypto_provider_installed(&mut ProcessDefaults::new()),
        Ok(false)
    );
    let installed = CryptoProvider::get_default().unwrap();
    assert_eq!(
        format!("{installed:?}"),
        format!("{:?}", rustls::crypto::ring::default_provider())
    );
    assert_eq!(
        format!("{:?}", process.tls_provider().as_ref().unwrap()),
        format!("{installed:?}")
    );
}

#[test]
fn fips_build_installs_aws_lc_and_checks_it() {
    assert_eq!(process_backend(true), Backend::AwsLcFips);
    assert_eq!(process_backend(false), Backend::Ring);
    let mut process = ProcessDefaults::new();
    let aws_lc = rustls::crypto::aws_lc_rs::default_provider();
    let outcome = install_provider(true, &mut process);
    if aws_lc.fips() {
        assert_eq!(outcome, Ok(true));
    } else {
        assert_eq!(outcome, Err(CryptoError::ProviderNotFips));
    }
    assert_eq!(
        format!("{:?}", CryptoProvider::get_default().unwrap()),
        format!("{aws_lc:?}")
    );
}

#[test]
fn fips_build_refuses_a_ring_provider_that_came_first() {
    let mut process = ProcessDefaults::new();
    assert_eq!(install_provider(false, &mut process), Ok(true));
    assert_eq!(
        install_provider(true, &mut process),
        Err(CryptoError::ProviderNotFips)
    );
    assert_eq!(
        install_provider(true, &mut process),
        Err(CryptoError::ProviderNotFips)
    );
    assert_eq!(install_provider(false, &mut process), Ok(false));
    assert_eq!(
        format!("{:?}", CryptoProvider::get_default().unwrap()),
        format!("{:?}", rustls::crypto::ring::default_provider())
    );
}

#[test]
fn refused_token_installation_hands_back_what_was_to_be_installed() {
    assert!(aws_lc::DEFAULT_PROVIDER.install_default().is_ok());
    let second = aws_lc::DEFAULT_PROVIDER.install_default();
    assert!(second.is_err());
    assert_eq!(check_tokens(second), Ok(()));
}

#[test]
fn checks_have_their_texts() {
    assert_eq!(check_installed(true), Ok(()));
    assert_eq!(
        check_installed(false).unwrap_err().message(),
        "the fips feature is enabled but the installed rustls crypto provider is not FIPS-validated"
    );
    assert_eq!(check_tokens(Ok(())), Ok(()));
    assert_eq!(check_tokens(Err(&aws_lc::DEFAULT_PROVIDER)), Ok(()));
    let other: &'static TokenProvider = Box::leak(Box::new(TokenProvider {
        signer_factory: aws_lc::DEFAULT_PROVIDER.signer_factory,
        verifier_factory: aws_lc::DEFAULT_PROVIDER.verifier_factory,
        jwk_utils: JwkUtils::new_unimplemented(),
    }));
    assert_eq!(
        check_tokens(Err(other)).unwrap_err().message(),
        "the fips feature is enabled but jsonwebtoken's process-default crypto provider is not aws-lc; \
         this happens when a JWT operation ran before ensure_crypto_provider_installed() (latching \
         jsonwebtoken's placeholder provider) or when other code installed a different provider"
    );
}

#[test]
fn tls_backend_is_applied_in_fips_builds_only() {
    let _ = provider(Backend::Ring).install_default();
    let applied = apply_fips_tls_backend(reqwest::Client::builder().user_agent("kept"));
    assert!(applied.build().is_ok());
    let applied = apply_tls_backend(true, reqwest::Client::builder().user_agent("kept"));
    assert!(format!("{applied:?}").contains("kept"));
    assert!(apply_tls_backend(true, applied).build().is_ok());

    // A builder whose TLS nobody knows cannot be built; forcing `rustls` repairs that.
    let unknown = || reqwest::Client::builder().use_preconfigured_tls("no TLS at all");
    assert!(apply_tls_backend(false, unknown()).build().is_err());
    assert!(apply_tls_backend(true, unknown()).build().is_ok());
}
