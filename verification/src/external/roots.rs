//! PEM certificates, trust anchors and root certificate stores.

use rustls::RootCertStore;
use rustls_pki_types::pem::PemObject;
use rustls_pki_types::CertificateDer;
use vstd::prelude::*;

verus! {

/// The values of a list of byte strings.
pub open spec fn contents(list: Seq<Vec<u8>>) -> Seq<Seq<u8>> {
    Seq::new(list.len(), |i: int| list[i]@)
}

/// The value of what reading certificates gave.
pub open spec fn ders_view(outcome: Result<Vec<Vec<u8>>, String>) -> Result<
    Seq<Seq<u8>>,
    Seq<char>,
> {
    match outcome {
        Ok(ders) => Ok(contents(ders@)),
        Err(cause) => Err(cause@),
    }
}

/// The certificates in the PEM text `pem`, in DER and in the order of the text, or the text of the
/// error where a section of it is malformed. Sections of other kinds are passed over.
pub uninterp spec fn pem_certificates(pem: Seq<u8>) -> Result<Seq<Seq<u8>>, Seq<char>>;

/// What verification needs of a trusted certificate, in DER.
pub struct Anchor {
    pub subject: Seq<u8>,
    pub subject_public_key_info: Seq<u8>,
    pub name_constraints: Option<Seq<u8>>,
}

/// The trust anchor that the certificate `der` makes, or the text of the error where it makes
/// none.
pub uninterp spec fn trust_anchor(der: Seq<u8>) -> Result<Anchor, Seq<char>>;

/// The list `before` with the root certificates of Mozilla behind it.
pub uninterp spec fn with_public_roots(before: Seq<Anchor>) -> Seq<Anchor>;

/// A store of trust anchors. What it holds is told by [`anchors_in`].
#[verifier::external_type_specification]
#[verifier::external_body]
pub struct ExRootCertStore(rustls::RootCertStore);

/// The trust anchors that `store` holds, in the order in which they were added.
pub uninterp spec fn anchors_in(store: RootCertStore) -> Seq<Anchor>;

/// Calls `CertificateDer::pem_reader_iter` of `rustls_pki_types` on bytes in memory and collects
/// what it yields up to the first error. Assumed: the outcome depends on the bytes alone, and no
/// bytes hold no certificate.
#[verifier::external_body]
pub(crate) fn read_pem(pem: &[u8]) -> (certificates: Result<Vec<Vec<u8>>, String>)
    ensures
        ders_view(certificates) == pem_certificates(pem@),
        pem@.len() == 0 ==> certificates is Ok && certificates->Ok_0@.len() == 0,
{
    CertificateDer::pem_reader_iter(pem)
        .map(|section| section.map(|der| der.to_vec()).map_err(|error| error.to_string()))
        .collect()
}

/// Calls `RootCertStore::empty` of `rustls`. Assumed: the store holds nothing.
#[verifier::external_body]
pub(crate) fn empty_store() -> (store: RootCertStore)
    ensures
        anchors_in(store) == Seq::<Anchor>::empty(),
{
    RootCertStore::empty()
}

/// Calls `RootCertStore::add` of `rustls`. Assumed: a certificate that makes a trust anchor is
/// added at the end; another one is refused and leaves the store as it was; which of the two it
/// is, the bytes of the certificate alone decide.
#[verifier::external_body]
pub(crate) fn add_root(store: &mut RootCertStore, der: &Vec<u8>) -> (added: Result<(), String>)
    ensures
        match added {
            Ok(()) => trust_anchor(der@) is Ok && anchors_in(*final(store)) == anchors_in(
                *old(store),
            ).push(trust_anchor(der@)->Ok_0),
            Err(cause) => trust_anchor(der@) == Err::<Anchor, Seq<char>>(cause@) && anchors_in(
                *final(store),
            ) == anchors_in(*old(store)),
        },
{
    store.add(CertificateDer::from(der.clone())).map_err(|error| error.to_string())
}

/// Calls `Extend::extend` on a `RootCertStore` with `webpki_roots::TLS_SERVER_ROOTS`. Assumed: the
/// root certificates of Mozilla, of which there are some, are added behind what the store held.
#[verifier::external_body]
pub(crate) fn add_public_roots(store: &mut RootCertStore)
    ensures
        anchors_in(*final(store)) == with_public_roots(anchors_in(*old(store))),
        anchors_in(*old(store)).is_prefix_of(anchors_in(*final(store))),
        anchors_in(*old(store)).len() < anchors_in(*final(store)).len(),
{
    store.extend(webpki_roots::TLS_SERVER_ROOTS.iter().cloned());
}

} // verus!
