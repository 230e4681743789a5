//! What the TLS settings make of a Kubernetes configuration.

use crate::backend::Backend;
use crate::error::{ErrorView, TlsError};
use crate::external::roots::contents;
use crate::trust::roots_view;
use vstd::prelude::*;

verus! {

/// The part of a Kubernetes client configuration that TLS settings bear on.
pub struct KubernetesTls {
    /// Whether server certificates are left unverified (`insecure-skip-tls-verify`).
    pub accept_invalid_certs: bool,
    /// The certificates, in DER, that server certificates are verified against.
    pub root_cert: Option<Vec<Vec<u8>>>,
}

/// The value of a [`KubernetesTls`].
pub struct KubernetesView {
    pub accept_invalid_certs: bool,
    pub root_cert: Option<Seq<Seq<u8>>>,
}

impl View for KubernetesTls {
    type V = KubernetesView;

    open spec fn view(&self) -> KubernetesView {
        KubernetesView {
            accept_invalid_certs: self.accept_invalid_certs,
            root_cert: roots_view(self.root_cert),
        }
    }
}

/// The Kubernetes configuration under the certificates of a CA bundle, or under none: a bundle
/// replaces the roots of the configuration, without one the configuration stays as it is. A FIPS
/// build refuses to leave certificates unverified.
pub open spec fn kubernetes_trust(
    backend: Backend,
    roots: Option<Seq<Seq<u8>>>,
    config: KubernetesView,
) -> Result<KubernetesView, ErrorView> {
    if backend.fips() && config.accept_invalid_certs {
        Err(ErrorView::InsecureKubernetes)
    } else {
        match roots {
            Some(ders) => Ok(KubernetesView { root_cert: Some(ders), ..config }),
            None => Ok(config),
        }
    }
}

/// A copy of a list of byte strings.
fn copied(list: &Vec<Vec<u8>>) -> (copy: Vec<Vec<u8>>)
    ensures
        contents(copy@) == contents(list@),
{
    let mut copy: Vec<Vec<u8>> = Vec::new();
    for i in 0..list.len()
        invariant
            copy.len() == i,
            forall|j: int| 0 <= j < i ==> #[trigger] copy@[j]@ == list@[j]@,
    {
        copy.push(vstd::slice::slice_to_vec(list[i].as_slice()));
    }
    assert(contents(copy@) =~= contents(list@));
    copy
}

/// The Kubernetes configuration under the certificates of a CA bundle, or under none.
pub fn kubernetes_tls(
    backend: Backend,
    roots: &Option<Vec<Vec<u8>>>,
    config: KubernetesTls,
) -> (configured: Result<KubernetesTls, TlsError>)
    ensures
        match configured {
            Ok(configured) => kubernetes_trust(backend, roots_view(*roots), config@) == Ok::<
                KubernetesView,
                ErrorView,
            >(configured@),
            Err(error) => kubernetes_trust(backend, roots_view(*roots), config@) == Err::<
                KubernetesView,
                ErrorView,
            >(error@),
        },
{
    if backend.fips() && config.accept_invalid_certs {
        return Err(TlsError::InsecureKubernetes);
    }
    match roots {
        Some(ders) => Ok(KubernetesTls { root_cert: Some(copied(ders)), ..config }),
        None => Ok(config),
    }
}

/// What a build makes of a Kubernetes TLS configuration that says whether it is in FIPS mode: a
/// FIPS build refuses one that is not, another build takes any.
pub fn accept_kubernetes(backend: Backend, reports_fips: bool) -> (accepted: Result<(), TlsError>)
    ensures
        accepted is Ok <==> !backend.fips() || reports_fips,
        accepted is Err ==> accepted->Err_0@ == ErrorView::KubernetesNotFips,
{
    if !backend.fips() || reports_fips {
        Ok(())
    } else {
        Err(TlsError::KubernetesNotFips)
    }
}

/// A FIPS build never talks to Kubernetes without verifying certificates, and that is the only
/// configuration that is refused: another build refuses none.
pub proof fn insecure_kubernetes_is_refused(
    backend: Backend,
    roots: Option<Seq<Seq<u8>>>,
    config: KubernetesView,
)
    ensures
        kubernetes_trust(backend, roots, config) is Err <==> backend.fips()
            && config.accept_invalid_certs,
        backend.fips() ==> (kubernetes_trust(backend, roots, config) matches Ok(configured)
            ==> !configured.accept_invalid_certs),
{
}

/// The certificates of a CA bundle, all of them, take the place of the roots of a configuration;
/// without a bundle the roots stay. Nothing else changes.
pub proof fn only_the_roots_change(
    backend: Backend,
    roots: Option<Seq<Seq<u8>>>,
    config: KubernetesView,
)
    ensures
        kubernetes_trust(backend, roots, config) matches Ok(configured) ==> {
            &&& configured.accept_invalid_certs == config.accept_invalid_certs
            &&& roots is Some ==> configured.root_cert == roots
            &&& roots is None ==> configured.root_cert == config.root_cert
        },
        kubernetes_trust(backend, roots, config) matches Err(error) ==> error
            == ErrorView::InsecureKubernetes,
{
}

/// The value of a configuration is its flag and the value of its roots.
pub proof fn kubernetes_values_are_complete(config: KubernetesTls)
    ensures
        config@.accept_invalid_certs == config.accept_invalid_certs,
        config@.root_cert is Some <==> config.root_cert is Some,
        config.root_cert is Some ==> config@.root_cert == Some(contents(config.root_cert->0@)),
{
}

} // verus!
