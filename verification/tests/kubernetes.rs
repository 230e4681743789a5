use sgl_tls::backend::Backend;
use sgl_tls::kubernetes::{kubernetes_tls, KubernetesTls};

fn config(accept_invalid_certs: bool, root_cert: Option<Vec<Vec<u8>>>) -> KubernetesTls {
    KubernetesTls {
        accept_invalid_certs,
        root_cert,
    }
}

const BACKENDS: [Backend; 3] = [Backend::Ring, Backend::OpenSslFips, Backend::AwsLcFips];

#[test]
fn exclusive_bundle_replaces_the_roots_of_the_cluster() {
    let bundle = Some(vec![vec![1, 2], vec![3]]);
    for backend in BACKENDS {
        for roots in [None, Some(vec![]), Some(vec![vec![9]])] {
            let configured = kubernetes_tls(backend, &bundle, config(false, roots)).unwrap();
            assert_eq!(configured.root_cert, bundle);
            assert!(!configured.accept_invalid_certs);
        }
    }
}

#[test]
fn without_a_bundle_the_cluster_keeps_its_roots() {
    for backend in BACKENDS {
        for roots in [None, Some(vec![]), Some(vec![vec![9]])] {
            let configured = kubernetes_tls(backend, &None, config(false, roots.clone())).unwrap();
            assert_eq!(configured.root_cert, roots);
        }
    }
}

#[test]
fn fips_build_rejects_insecure_skip_tls_verify() {
    for bundle in [None, Some(vec![vec![1]])] {
        for backend in [Backend::OpenSslFips, Backend::AwsLcFips] {
            let error = kubernetes_tls(backend, &bundle, config(true, None))
                .err()
                .unwrap();
            assert!(error.message().contains("insecure-skip-tls-verify"));
            assert_eq!(
                error.message(),
                "FIPS build rejects Kubernetes insecure-skip-tls-verify"
            );
        }
        let configured = kubernetes_tls(Backend::Ring, &bundle, config(true, None)).unwrap();
        assert!(configured.accept_invalid_certs);
        assert_eq!(configured.root_cert, bundle);
    }
}
