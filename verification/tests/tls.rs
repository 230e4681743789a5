use rcgen::{BasicConstraints, CertificateParams, IsCa, KeyPair, KeyUsagePurpose};
use rustls::crypto::CryptoProvider;
use rustls::{
    CipherSuite, ClientConfig, ClientConnection, NamedGroup, ServerConfig, ServerConnection,
    SupportedProtocolVersion,
};
use rustls_pki_types::{PrivatePkcs8KeyDer, ServerName};
use sgl_tls::backend::{fips_cipher_suites, fips_key_exchanges, Backend, BACKEND};
use sgl_tls::error::TlsError;
use sgl_tls::external::process::ProcessDefaults;
use sgl_tls::kubernetes::{accept_kubernetes, KubernetesTls};
use sgl_tls::provider::{
    accept_installation, accept_module, accept_provider, accept_random, provider,
    require_fips_provider, ProcessProvider, ProviderState,
};
use sgl_tls::tls::{accept_config, client_builder, initialize, kubernetes_tls, prepare, Tls, TlsSettings};
use sgl_tls::trust::{
    accept_certificates, bundle_certificates, bundle_store, public_store, CaBundle,
};
use std::sync::Arc;

struct Server {
    config: Arc<ServerConfig>,
    ca_pem: String,
    ca_der: Vec<u8>,
}

fn server(version: &'static SupportedProtocolVersion, h2: bool) -> Server {
    let ca_key = KeyPair::generate().unwrap();
    let mut ca_params = CertificateParams::new(Vec::new()).unwrap();
    ca_params.is_ca = IsCa::Ca(BasicConstraints::Unconstrained);
    ca_params.key_usages = vec![KeyUsagePurpose::KeyCertSign];
    let ca = ca_params.self_signed(&ca_key).unwrap();
    let key = KeyPair::generate().unwrap();
    let cert = CertificateParams::new(vec!["localhost".into()])
        .unwrap()
        .signed_by(&key, &ca, &ca_key)
        .unwrap();
    let mut config =
        ServerConfig::builder_with_provider(Arc::new(rustls::crypto::ring::default_provider()))
            .with_protocol_versions(&[version])
            .unwrap()
            .with_no_client_auth()
            .with_single_cert(
                vec![cert.der().clone()],
                PrivatePkcs8KeyDer::from(key.serialize_der()).into(),
            )
            .unwrap();
    config.alpn_protocols = vec![if h2 {
        b"h2".to_vec()
    } else {
        b"http/1.1".to_vec()
    }];
    Server {
        config: Arc::new(config),
        ca_pem: ca.pem(),
        ca_der: ca.der().to_vec(),
    }
}

/// Shakes hands in memory and tells the application protocol, or why the handshake failed.
fn handshake(
    client: &ClientConfig,
    server: &Server,
    host: &str,
) -> Result<Option<Vec<u8>>, rustls::Error> {
    let name = ServerName::try_from(host.to_string()).unwrap();
    let mut client = ClientConnection::new(Arc::new(client.clone()), name).unwrap();
    let mut server = ServerConnection::new(server.config.clone()).unwrap();
    while client.is_handshaking() || server.is_handshaking() {
        let mut wire: Vec<u8> = Vec::new();
        while client.wants_write() {
            client.write_tls(&mut wire).unwrap();
        }
        let mut rest = wire.as_slice();
        while !rest.is_empty() {
            server.read_tls(&mut rest).unwrap();
            server.process_new_packets()?;
        }
        let mut wire: Vec<u8> = Vec::new();
        while server.wants_write() {
            server.write_tls(&mut wire).unwrap();
        }
        let mut rest = wire.as_slice();
        while !rest.is_empty() {
            client.read_tls(&mut rest).unwrap();
            client.process_new_packets()?;
        }
    }
    Ok(client.alpn_protocol().map(|protocol| protocol.to_vec()))
}

fn ring() -> ProcessProvider {
    ProcessProvider::new(Backend::Ring, ProcessDefaults::new())
}

fn load(bundle: Option<CaBundle>) -> Result<TlsSettings, TlsError> {
    TlsSettings::load(&mut ring(), bundle)
}

fn pem(text: &str) -> Option<CaBundle> {
    Some(CaBundle::Contents(text.as_bytes().to_vec()))
}

const INVALID: &str = "-----BEGIN CERTIFICATE-----\ninvalid\n-----END CERTIFICATE-----\n";
const NO_CERTIFICATE: &str = "-----BEGIN CERTIFICATE-----\nAAAA\n-----END CERTIFICATE-----\n";

#[test]
fn fips_algorithms_do_not_expand_with_runtime_provider_capabilities() {
    let provider = provider(Backend::OpenSslFips);
    assert_eq!(
        provider
            .kx_groups
            .iter()
            .map(|group| group.name())
            .collect::<Vec<_>>(),
        [NamedGroup::secp384r1, NamedGroup::secp256r1]
    );
    assert!(provider.cipher_suites.iter().all(|suite| matches!(
        suite.suite(),
        CipherSuite::TLS13_AES_256_GCM_SHA384
            | CipherSuite::TLS13_AES_128_GCM_SHA256
            | CipherSuite::TLS_ECDHE_ECDSA_WITH_AES_256_GCM_SHA384
            | CipherSuite::TLS_ECDHE_RSA_WITH_AES_256_GCM_SHA384
            | CipherSuite::TLS_ECDHE_ECDSA_WITH_AES_128_GCM_SHA256
            | CipherSuite::TLS_ECDHE_RSA_WITH_AES_128_GCM_SHA256
    )));
    assert_eq!(fips_cipher_suites().len(), 6);
    assert_eq!(fips_key_exchanges().len(), 2);
    assert_eq!(
        provider
            .cipher_suites
            .iter()
            .map(|suite| u16::from(suite.suite()))
            .collect::<Vec<u16>>(),
        [0x1302, 0x1301, 0xc02c, 0xc030, 0xc02b, 0xc02f]
    );
}

#[test]
fn ring_offers_its_fixed_lists() {
    let provider = provider(Backend::Ring);
    assert_eq!(
        provider
            .cipher_suites
            .iter()
            .map(|suite| u16::from(suite.suite()))
            .collect::<Vec<u16>>(),
        [0x1302, 0x1301, 0x1303, 0xc02c, 0xc02b, 0xcca9, 0xc030, 0xc02f, 0xcca8]
    );
    assert_eq!(
        provider
            .kx_groups
            .iter()
            .map(|group| u16::from(group.name()))
            .collect::<Vec<u16>>(),
        [0x001d, 0x0017, 0x0018]
    );
    assert!(!provider.fips());
}

#[test]
fn https_requires_trusted_ca_and_matching_hostname_with_both_protocols() {
    for version in [&rustls::version::TLS12, &rustls::version::TLS13] {
        for h2 in [false, true] {
            let server = server(version, h2);
            let trusted = load(pem(&server.ca_pem)).unwrap();
            assert_eq!(trusted.http.fips(), BACKEND.fips());
            let protocol = handshake(&trusted.http, &server, "localhost").unwrap();
            assert_eq!(
                protocol,
                Some(if h2 {
                    b"h2".to_vec()
                } else {
                    b"http/1.1".to_vec()
                })
            );

            let error = handshake(&trusted.http, &server, "127.0.0.1").unwrap_err();
            assert!(format!("{error:?}").to_lowercase().contains("certificate"));

            let untrusted = load(None).unwrap();
            let error = handshake(&untrusted.http, &server, "localhost").unwrap_err();
            assert!(format!("{error:?}").to_lowercase().contains("certificate"));
        }
    }
}

#[test]
fn invalid_ca_bundle_never_falls_back_to_public_roots() {
    assert!(load(pem("")).is_err());
    assert!(load(pem(INVALID)).is_err());
}

/// A client configuration that verifies servers against the roots given.
fn cluster_config(roots: &Option<Vec<Vec<u8>>>) -> ClientConfig {
    ClientConfig::builder_with_provider(Arc::new(rustls::crypto::ring::default_provider()))
        .with_safe_default_protocol_versions()
        .unwrap()
        .with_root_certificates(bundle_store(roots.as_ref().unwrap()).unwrap())
        .with_no_client_auth()
}

#[test]
fn kubernetes_keeps_the_cluster_ca_without_a_bundle() {
    let mut server = server(&rustls::version::TLS12, false);
    Arc::make_mut(&mut server.config).alpn_protocols.clear();
    let roots = load(pem(&server.ca_pem)).unwrap().roots;
    let settings = load(None).unwrap();
    let config = KubernetesTls {
        accept_invalid_certs: false,
        root_cert: roots.clone(),
    };
    let configured = settings.kubernetes_tls(BACKEND, config).unwrap();
    assert_eq!(configured.root_cert, roots);
    assert!(!configured.accept_invalid_certs);
    let client = cluster_config(&configured.root_cert);
    assert!(handshake(&client, &server, "localhost").is_ok());
    assert!(handshake(&client, &server, "127.0.0.1").is_err());
}

#[test]
fn exclusive_bundle_applies_to_kubernetes_and_rejects_insecure_config() {
    let mut server = server(&rustls::version::TLS13, false);
    Arc::make_mut(&mut server.config).alpn_protocols.clear();
    let settings = load(pem(&server.ca_pem)).unwrap();
    let config = KubernetesTls {
        accept_invalid_certs: false,
        root_cert: Some(vec![]),
    };
    let configured = settings.kubernetes_tls(BACKEND, config).unwrap();
    let client = cluster_config(&configured.root_cert);
    assert!(handshake(&client, &server, "localhost").is_ok());
    for backend in [Backend::OpenSslFips, Backend::AwsLcFips] {
        let config = KubernetesTls {
            accept_invalid_certs: true,
            root_cert: Some(vec![]),
        };
        let error = settings.kubernetes_tls(backend, config).err().unwrap();
        assert!(error.message().contains("insecure-skip-tls-verify"));
        let ring = rustls::crypto::ring::default_provider();
        assert!(require_fips_provider(backend, &ring, &mut ProcessDefaults::new()).is_err());
    }
}

#[test]
fn settings_lay_down_protocols_and_secrets() {
    let settings = load(None).unwrap();
    assert_eq!(
        settings.http.alpn_protocols,
        vec![b"h2".to_vec(), b"http/1.1".to_vec()]
    );
    assert_eq!(settings.http.require_ems, BACKEND.fips());
    assert_eq!(settings.http.fips(), BACKEND.fips());
    assert_eq!(settings.answer.is_some(), BACKEND.fips());
    assert!(settings.roots.is_none());
    assert!(settings.client_builder().build().is_ok());
}

#[test]
fn every_certificate_of_a_bundle_is_trusted_and_no_other() {
    let first = server(&rustls::version::TLS13, true);
    let second = server(&rustls::version::TLS12, false);
    let stranger = server(&rustls::version::TLS13, true);
    let text = format!("first\n{}second\n{}", first.ca_pem, second.ca_pem);
    let settings = load(pem(&text)).unwrap();
    assert_eq!(
        settings.roots,
        Some(vec![first.ca_der.clone(), second.ca_der.clone()])
    );
    assert!(handshake(&settings.http, &first, "localhost").is_ok());
    assert!(handshake(&settings.http, &second, "localhost").is_ok());
    assert!(handshake(&settings.http, &stranger, "localhost").is_err());
}

#[test]
fn stores_hold_what_they_are_made_of() {
    let first = server(&rustls::version::TLS13, true);
    let second = server(&rustls::version::TLS13, true);
    let store = bundle_store(&vec![first.ca_der.clone(), second.ca_der.clone()]).unwrap();
    let mut expected = rustls::RootCertStore::empty();
    expected.add(first.ca_der.into()).unwrap();
    expected.add(second.ca_der.into()).unwrap();
    assert_eq!(store.roots, expected.roots);
    assert_eq!(store.len(), 2);
    assert_ne!(store.roots[0], store.roots[1]);
    assert_eq!(bundle_store(&Vec::new()).unwrap().len(), 0);
    assert_eq!(public_store().roots, webpki_roots::TLS_SERVER_ROOTS.to_vec());
}

#[test]
fn bundles_are_refused_for_what_is_wrong_with_them() {
    let unopened = Some(CaBundle::Unopened {
        path: "/nowhere/ca.pem".into(),
        cause: "I/O error: No such file or directory (os error 2)".into(),
    });
    assert_eq!(
        load(unopened).err().unwrap().message(),
        "read CA bundle at /nowhere/ca.pem: I/O error: No such file or directory (os error 2)"
    );
    let unread = Some(CaBundle::Unread {
        cause: "I/O error: Is a directory (os error 21)".into(),
    });
    assert_eq!(
        load(unread).err().unwrap().message(),
        "parse CA bundle certificates: I/O error: Is a directory (os error 21)"
    );
    assert_eq!(
        load(pem("")).err().unwrap().message(),
        "CA bundle contains no certificates"
    );
    assert_eq!(
        load(pem("no section at all\n")).err().unwrap().message(),
        "CA bundle contains no certificates"
    );
    let error = load(pem(&INVALID.replace("invalid", "!!!!"))).err().unwrap();
    assert!(matches!(error, TlsError::ParseBundle { .. }));
    assert!(error.message().starts_with("parse CA bundle certificates: base64 decode error"));
    let error = load(pem("-----BEGIN CERTIFICATE-----\nAAAA\n")).err().unwrap();
    assert!(error
        .message()
        .starts_with("parse CA bundle certificates: missing section end marker"));
    let error = load(pem(NO_CERTIFICATE)).err().unwrap();
    assert!(matches!(error, TlsError::InvalidCertificate { .. }));
    assert!(error.message().starts_with("invalid CA certificate: "));
}

#[test]
fn one_bad_certificate_spoils_the_bundle() {
    let good = server(&rustls::version::TLS13, true);
    for text in [
        format!("{}{NO_CERTIFICATE}", good.ca_pem),
        format!("{NO_CERTIFICATE}{}", good.ca_pem),
    ] {
        let error = load(pem(&text)).err().unwrap();
        assert!(matches!(error, TlsError::InvalidCertificate { .. }));
    }
    assert!(bundle_store(&vec![good.ca_der.clone(), vec![0, 0, 0]]).is_err());
}

#[test]
fn sections_of_other_kinds_are_passed_over() {
    let server = server(&rustls::version::TLS13, true);
    let key = KeyPair::generate().unwrap().serialize_pem();
    let text = format!("{key}{}", server.ca_pem);
    let ders = bundle_certificates(CaBundle::Contents(text.into_bytes())).unwrap();
    assert_eq!(ders, vec![server.ca_der]);
    assert!(matches!(
        bundle_certificates(CaBundle::Contents(key.into_bytes())),
        Err(TlsError::EmptyBundle)
    ));
}

#[test]
fn read_certificates_are_accepted_where_there_are_some() {
    assert_eq!(
        accept_certificates(Ok(vec![vec![1], vec![2]])).unwrap(),
        vec![vec![1], vec![2]]
    );
    assert!(matches!(
        accept_certificates(Ok(vec![])),
        Err(TlsError::EmptyBundle)
    ));
    assert_eq!(
        accept_certificates(Err("broken".into())).unwrap_err().message(),
        "parse CA bundle certificates: broken"
    );
}

#[test]
fn provider_without_algorithms_is_refused() {
    let mut bare = rustls::crypto::ring::default_provider();
    bare.cipher_suites.clear();
    let error = TlsSettings::with_provider(Backend::Ring, Arc::new(bare), None)
        .err()
        .unwrap();
    assert_eq!(
        error.message(),
        "configure TLS protocol versions: unexpected error: no usable cipher suites configured"
    );
    let mut bare = rustls::crypto::ring::default_provider();
    bare.kx_groups.clear();
    let error = TlsSettings::with_provider(Backend::Ring, Arc::new(bare), None)
        .err()
        .unwrap();
    assert_eq!(
        error.message(),
        "configure TLS protocol versions: unexpected error: no kx groups configured"
    );
}

#[test]
fn providers_of_all_backends_make_configurations() {
    for backend in [Backend::Ring, Backend::OpenSslFips, Backend::AwsLcFips] {
        let crypto = Arc::new(provider(backend));
        assert!(TlsSettings::with_provider(Backend::Ring, crypto, None).is_ok());
    }
}

#[test]
fn fips_build_refuses_what_is_not_in_fips_mode() {
    let ring = rustls::crypto::ring::default_provider();
    for backend in [Backend::OpenSslFips, Backend::AwsLcFips] {
        assert!(backend.fips());
        assert!(require_fips_provider(backend, &ring, &mut ProcessDefaults::new()).is_err());
        let error = TlsSettings::with_provider(backend, Arc::new(ring.clone()), None)
            .err()
            .unwrap();
        assert_eq!(
            error.message(),
            "FIPS build requires a FIPS-enabled TLS configuration"
        );
        assert_eq!(
            accept_provider(backend, false).unwrap_err().message(),
            "FIPS build requires a FIPS-enabled crypto provider; \
             OpenSSL deployments must configure fips=yes in OPENSSL_CONF"
        );
        assert_eq!(
            accept_installation(backend, false).unwrap_err().message(),
            "a Rustls provider was installed before FIPS initialization"
        );
        assert_eq!(
            accept_config(backend, false).unwrap_err().message(),
            "FIPS build requires a FIPS-enabled TLS configuration"
        );
        assert_eq!(
            accept_kubernetes(backend, false).unwrap_err().message(),
            "Kubernetes TLS configuration is not in FIPS mode"
        );
        assert!(accept_provider(backend, true).is_ok());
        assert!(accept_installation(backend, true).is_ok());
        assert!(accept_config(backend, true).is_ok());
        assert!(accept_kubernetes(backend, true).is_ok());
    }
}

#[test]
fn default_build_takes_everything() {
    assert!(!Backend::Ring.fips());
    let ring = rustls::crypto::ring::default_provider();
    assert!(require_fips_provider(Backend::Ring, &ring, &mut ProcessDefaults::new()).is_ok());
    for answer in [false, true] {
        assert!(accept_provider(Backend::Ring, answer).is_ok());
        assert!(accept_installation(Backend::Ring, answer).is_ok());
        assert!(accept_config(Backend::Ring, answer).is_ok());
        assert!(accept_kubernetes(Backend::Ring, answer).is_ok());
    }
}

#[test]
fn default_build_tolerates_an_installed_provider() {
    let _ = rustls::crypto::aws_lc_rs::default_provider().install_default();
    let before = format!("{:?}", CryptoProvider::get_default().unwrap());
    let mut process = ProcessDefaults::new();
    let state = ProviderState::initialize(Backend::Ring, &mut process)
        .ok()
        .unwrap();
    assert!(state.module.is_none());
    assert_eq!(
        format!("{:?}", state.crypto),
        format!("{:?}", rustls::crypto::ring::default_provider())
    );
    assert_eq!(
        format!("{:?}", process.tls_provider().as_ref().unwrap()),
        before
    );
}

#[test]
fn fips_build_does_not_install_what_is_not_in_fips_mode() {
    for backend in [Backend::OpenSslFips, Backend::AwsLcFips] {
        let mut process = ProcessDefaults::new();
        let ring = rustls::crypto::ring::default_provider();
        let state = ProviderState::bring_up(backend, ring, None, &mut process);
        assert!(matches!(state, Err(TlsError::ProviderNotFips)));
        assert!(process.tls_provider().is_none());
        assert!(CryptoProvider::get_default().is_none());
    }
}

#[test]
fn default_build_installs_the_provider_that_it_brings_up() {
    let mut process = ProcessDefaults::new();
    let aws_lc = rustls::crypto::aws_lc_rs::default_provider();
    let expected = format!("{aws_lc:?}");
    let state = ProviderState::bring_up(Backend::Ring, aws_lc, None, &mut process)
        .ok()
        .unwrap();
    assert_eq!(format!("{:?}", state.crypto), expected);
    assert_eq!(
        format!("{:?}", CryptoProvider::get_default().unwrap()),
        expected
    );
}

#[test]
fn fips_backend_without_its_module_stops_without_a_fallback() {
    let mut tls = Tls::with_backend(Backend::OpenSslFips, ProcessDefaults::new());
    match initialize(&mut tls, None) {
        Ok(()) => assert!(CryptoProvider::get_default().unwrap().fips()),
        Err(TlsError::LoadModule { cause }) => {
            let error = TlsError::LoadModule { cause };
            assert!(error.message().starts_with(
                "load OpenSSL FIPS provider; check the runtime image and OPENSSL_CONF: "
            ));
            assert!(CryptoProvider::get_default().is_none());
            assert_eq!(
                client_builder(&mut tls).err().unwrap().message(),
                error.message()
            );
        }
        Err(error) => {
            assert!(matches!(error, TlsError::ProviderNotFips));
            assert!(CryptoProvider::get_default().is_none());
        }
    }
}

#[test]
fn fips_backend_is_blocked_by_a_provider_that_came_first() {
    for backend in [Backend::OpenSslFips, Backend::AwsLcFips] {
        let mut process = ProcessDefaults::new();
        let _ = ProviderState::initialize(Backend::Ring, &mut process);
        assert!(process.tls_provider().is_some());
        let mut tls = Tls::with_backend(backend, process);
        assert!(initialize(&mut tls, None).is_err());
        assert!(client_builder(&mut tls).is_err());
    }
}

#[test]
fn fips_configuration_requires_the_extended_master_secret_before_it_is_asked() {
    for backend in [Backend::Ring, Backend::OpenSslFips, Backend::AwsLcFips] {
        let crypto = Arc::new(provider(backend));
        let (http, roots) = TlsSettings::unchecked(backend, crypto, None).unwrap();
        assert_eq!(http.require_ems, backend.fips());
        assert_eq!(
            http.alpn_protocols,
            vec![b"h2".to_vec(), b"http/1.1".to_vec()]
        );
        assert!(roots.is_none());
    }
}

#[test]
fn empty_bundle_is_named_as_such_whatever_the_build() {
    for backend in [Backend::Ring, Backend::OpenSslFips, Backend::AwsLcFips] {
        let crypto = Arc::new(provider(backend));
        let error = TlsSettings::with_provider(backend, crypto, pem(""))
            .err()
            .unwrap();
        assert!(matches!(error, TlsError::EmptyBundle));
    }
}

#[test]
fn preparing_leaves_the_settings_open() {
    let mut tls = Tls::new();
    assert!(prepare(&mut tls).is_ok());
    assert!(prepare(&mut tls).is_ok());
    assert!(matches!(
        initialize(&mut tls, pem("")),
        Err(TlsError::EmptyBundle)
    ));
    assert!(prepare(&mut tls).is_ok());
}

#[test]
fn tls_is_initialized_once() {
    let server = server(&rustls::version::TLS13, true);
    let mut tls = Tls::new();
    assert!(initialize(&mut tls, pem(&server.ca_pem)).is_ok());
    for bundle in [None, pem(&server.ca_pem), pem(INVALID)] {
        assert_eq!(
            initialize(&mut tls, bundle).unwrap_err().message(),
            "outbound TLS is already initialized"
        );
    }
    assert!(client_builder(&mut tls).unwrap().build().is_ok());
    let config = KubernetesTls {
        accept_invalid_certs: false,
        root_cert: None,
    };
    assert_eq!(
        kubernetes_tls(&mut tls, config).unwrap().root_cert,
        Some(vec![server.ca_der])
    );
}

#[test]
fn failed_initialization_stays_failed() {
    let mut tls = Tls::new();
    let first = initialize(&mut tls, pem("")).unwrap_err();
    assert_eq!(first.message(), "CA bundle contains no certificates");
    assert!(matches!(
        initialize(&mut tls, None),
        Err(TlsError::AlreadyInitialized)
    ));
    for _ in 0..2 {
        assert_eq!(
            client_builder(&mut tls).err().unwrap().message(),
            first.message()
        );
        let config = KubernetesTls {
            accept_invalid_certs: false,
            root_cert: None,
        };
        assert_eq!(
            kubernetes_tls(&mut tls, config).err().unwrap().message(),
            first.message()
        );
    }
}

#[test]
fn settings_are_settled_without_a_bundle_when_first_needed() {
    let mut tls = Tls::new();
    assert!(client_builder(&mut tls).is_ok());
    let server = server(&rustls::version::TLS13, true);
    assert!(matches!(
        initialize(&mut tls, pem(&server.ca_pem)),
        Err(TlsError::AlreadyInitialized)
    ));
    let config = KubernetesTls {
        accept_invalid_certs: true,
        root_cert: Some(vec![vec![7]]),
    };
    let config = kubernetes_tls(&mut tls, config).unwrap();
    assert!(config.accept_invalid_certs);
    assert_eq!(config.root_cert, Some(vec![vec![7]]));
}

#[test]
fn provider_is_initialized_once() {
    let mut provider = ring();
    let first = provider.get().unwrap();
    let second = provider.get().unwrap();
    assert!(Arc::ptr_eq(&first, &second));
    assert_eq!(provider.backend_of(), Backend::Ring);
}

#[test]
fn failures_repeat_themselves() {
    let failures = vec![
        TlsError::LoadModule { cause: "a".into() },
        TlsError::ProviderNotFips,
        TlsError::ProviderInstalledBefore,
        TlsError::RandomGenerator,
        TlsError::ReadBundle {
            path: "b".into(),
            cause: "c".into(),
        },
        TlsError::ParseBundle { cause: "d".into() },
        TlsError::EmptyBundle,
        TlsError::InvalidCertificate { cause: "e".into() },
        TlsError::ProtocolVersions { cause: "f".into() },
        TlsError::ConfigNotFips,
        TlsError::AlreadyInitialized,
        TlsError::InsecureKubernetes,
        TlsError::KubernetesNotFips,
    ];
    for failure in &failures {
        assert_eq!(failure.repeat().message(), failure.message());
    }
    assert!(accept_random(true).is_ok());
    assert_eq!(
        accept_random(false).unwrap_err().message(),
        "initialize TLS random generator"
    );
    assert_eq!(
        accept_module(Err("no such module".into())).err().unwrap().message(),
        "load OpenSSL FIPS provider; check the runtime image and OPENSSL_CONF: no such module"
    );
}
