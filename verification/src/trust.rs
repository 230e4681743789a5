//! The certificates that servers are verified against.

use crate::error::{ErrorView, TlsError};
use crate::external::roots::{
    add_public_roots, add_root, anchors_in, contents, ders_view, empty_store, pem_certificates,
    read_pem, trust_anchor, with_public_roots, Anchor,
};
use rustls::RootCertStore;
use vstd::prelude::*;

verus! {

/// What came of reading the file that holds a CA bundle.
pub enum CaBundle {
    /// The file could not be opened.
    Unopened { path: String, cause: String },
    /// Reading the opened file failed.
    Unread { cause: String },
    /// The file was read.
    Contents(Vec<u8>),
}

/// The value of a [`CaBundle`].
pub enum BundleView {
    Unopened { path: Seq<char>, cause: Seq<char> },
    Unread { cause: Seq<char> },
    Contents(Seq<u8>),
}

impl View for CaBundle {
    type V = BundleView;

    open spec fn view(&self) -> BundleView {
        match *self {
            CaBundle::Unopened { path, cause } => BundleView::Unopened {
                path: path@,
                cause: cause@,
            },
            CaBundle::Unread { cause } => BundleView::Unread { cause: cause@ },
            CaBundle::Contents(pem) => BundleView::Contents(pem@),
        }
    }
}

/// The value of a CA bundle that may be missing.
pub open spec fn bundle_view(bundle: Option<CaBundle>) -> Option<BundleView> {
    match bundle {
        Some(bundle) => Some(bundle@),
        None => None,
    }
}

/// Whether the CA bundle is a file without contents.
pub open spec fn empty_file(bundle: Option<BundleView>) -> bool {
    bundle == Some(BundleView::Contents(Seq::empty()))
}

/// The certificates that a CA bundle holds, in DER. There is at least one.
pub open spec fn certificates(bundle: BundleView) -> Result<Seq<Seq<u8>>, ErrorView> {
    match bundle {
        BundleView::Unopened { path, cause } => Err(ErrorView::ReadBundle { path, cause }),
        BundleView::Unread { cause } => Err(ErrorView::ParseBundle { cause }),
        BundleView::Contents(pem) => match pem_certificates(pem) {
            Err(cause) => Err(ErrorView::ParseBundle { cause }),
            Ok(ders) => if ders.len() == 0 {
                Err(ErrorView::EmptyBundle)
            } else {
                Ok(ders)
            },
        },
    }
}

/// The trust anchors of a list of certificates, in the same order, or why the first certificate
/// that makes none does not.
pub open spec fn anchors(ders: Seq<Seq<u8>>) -> Result<Seq<Anchor>, Seq<char>>
    decreases ders.len(),
{
    if ders.len() == 0 {
        Ok(Seq::empty())
    } else {
        match anchors(ders.drop_last()) {
            Err(cause) => Err(cause),
            Ok(before) => match trust_anchor(ders.last()) {
                Err(cause) => Err(cause),
                Ok(anchor) => Ok(before.push(anchor)),
            },
        }
    }
}

/// What servers are verified against.
#[verifier::ext_equal]
pub struct TrustView {
    pub anchors: Seq<Anchor>,
    /// The certificates of the CA bundle, where there is one.
    pub roots: Option<Seq<Seq<u8>>>,
}

/// What servers are verified against: the certificates of the CA bundle and nothing else, or,
/// without a bundle, the root certificates of Mozilla.
pub open spec fn trust(bundle: Option<BundleView>) -> Result<TrustView, ErrorView> {
    match bundle {
        None => Ok(TrustView { anchors: with_public_roots(Seq::empty()), roots: None }),
        Some(bundle) => match certificates(bundle) {
            Err(error) => Err(error),
            Ok(ders) => match anchors(ders) {
                Err(cause) => Err(ErrorView::InvalidCertificate { cause }),
                Ok(anchors) => Ok(TrustView { anchors, roots: Some(ders) }),
            },
        },
    }
}

/// The value of a list of certificates that may be missing.
pub open spec fn roots_view(roots: Option<Vec<Vec<u8>>>) -> Option<Seq<Seq<u8>>> {
    match roots {
        Some(ders) => Some(contents(ders@)),
        None => None,
    }
}

/// The certificates that a CA bundle holds, in DER.
pub fn bundle_certificates(bundle: CaBundle) -> (ders: Result<Vec<Vec<u8>>, TlsError>)
    ensures
        match ders {
            Ok(ders) => certificates(bundle@) == Ok::<Seq<Seq<u8>>, ErrorView>(contents(ders@)),
            Err(error) => certificates(bundle@) == Err::<Seq<Seq<u8>>, ErrorView>(error@),
        },
        empty_file(Some(bundle@)) ==> ders is Err && ders->Err_0@ == ErrorView::EmptyBundle,
        bundle matches CaBundle::Contents(pem) ==> match ders {
            Ok(ders) => ders@.len() > 0 && pem_certificates(pem@) == Ok::<Seq<Seq<u8>>, Seq<char>>(
                contents(ders@),
            ),
            Err(error) => match pem_certificates(pem@) {
                Ok(read) => read.len() == 0 && error@ == ErrorView::EmptyBundle,
                Err(cause) => error@ == (ErrorView::ParseBundle { cause }),
            },
        },
{
    match bundle {
        CaBundle::Unopened { path, cause } => Err(TlsError::ReadBundle { path, cause }),
        CaBundle::Unread { cause } => Err(TlsError::ParseBundle { cause }),
        CaBundle::Contents(pem) => accept_certificates(read_pem(pem.as_slice())),
    }
}

/// What is made of the certificates that were read from a CA bundle: at least one is needed.
pub fn accept_certificates(outcome: Result<Vec<Vec<u8>>, String>) -> (ders: Result<
    Vec<Vec<u8>>,
    TlsError,
>)
    ensures
        match (ders_view(outcome), ders) {
            (Err(cause), Err(error)) => error@ == (ErrorView::ParseBundle { cause }),
            (Ok(read), Err(error)) => read.len() == 0 && error@ == ErrorView::EmptyBundle,
            (Ok(read), Ok(ders)) => read.len() > 0 && contents(ders@) == read,
            _ => false,
        },
{
    match outcome {
        Err(cause) => Err(TlsError::ParseBundle { cause }),
        Ok(ders) => if ders.len() == 0 {
            Err(TlsError::EmptyBundle)
        } else {
            Ok(ders)
        },
    }
}

/// A store with the trust anchors of the certificates given, or why one of them makes none.
pub fn bundle_store(ders: &Vec<Vec<u8>>) -> (store: Result<RootCertStore, TlsError>)
    ensures
        match store {
            Ok(store) => anchors(contents(ders@)) == Ok::<Seq<Anchor>, Seq<char>>(
                anchors_in(store),
            ),
            Err(error) => anchors(contents(ders@)) is Err && error@ == (
            ErrorView::InvalidCertificate { cause: anchors(contents(ders@))->Err_0 }),
        },
{
    let mut store = empty_store();
    let ghost all = contents(ders@);
    for i in 0..ders.len()
        invariant
            all == contents(ders@),
            anchors(all.take(i as int)) == Ok::<Seq<Anchor>, Seq<char>>(anchors_in(store)),
    {
        proof {
            assert(all.take(i + 1).drop_last() =~= all.take(i as int));
            assert(all.take(i + 1).last() == ders@[i as int]@);
        }
        match add_root(&mut store, &ders[i]) {
            Ok(()) => {},
            Err(cause) => {
                proof {
                    lemma_refusal_stays(all, i + 1);
                }
                return Err(TlsError::InvalidCertificate { cause });
            },
        }
    }
    assert(all.take(all.len() as int) =~= all);
    Ok(store)
}

/// Where the first `n` certificates do not make trust anchors, all of them do not, for the same
/// reason.
proof fn lemma_refusal_stays(ders: Seq<Seq<u8>>, n: int)
    requires
        0 <= n <= ders.len(),
        anchors(ders.take(n)) is Err,
    ensures
        anchors(ders) == anchors(ders.take(n)),
    decreases ders.len() - n,
{
    if n == ders.len() {
        assert(ders.take(n) =~= ders);
    } else {
        assert(ders.take(n + 1).drop_last() =~= ders.take(n));
        lemma_refusal_stays(ders, n + 1);
    }
}

/// A store with the root certificates of Mozilla.
pub fn public_store() -> (store: RootCertStore)
    ensures
        anchors_in(store) == with_public_roots(Seq::empty()),
        anchors_in(store).len() > 0,
{
    let mut store = empty_store();
    add_public_roots(&mut store);
    store
}

/// Certificates make trust anchors all together or not at all: one certificate that makes none
/// spoils the list, and where each makes one, the anchors are theirs, one for one and in order.
pub proof fn anchors_all_or_none(ders: Seq<Seq<u8>>)
    ensures
        anchors(ders) is Ok <==> (forall|i: int|
            0 <= i < ders.len() ==> trust_anchor(#[trigger] ders[i]) is Ok),
        anchors(ders) matches Ok(list) ==> list.len() == ders.len() && (forall|i: int|
            0 <= i < ders.len() ==> trust_anchor(#[trigger] ders[i]) == Ok::<Anchor, Seq<char>>(
                list[i],
            )),
    decreases ders.len(),
{
    if ders.len() > 0 {
        let before = ders.drop_last();
        anchors_all_or_none(before);
        assert(forall|i: int| 0 <= i < before.len() ==> before[i] == ders[i]);
        if anchors(ders) is Ok {
            assert forall|i: int| 0 <= i < ders.len() implies trust_anchor(#[trigger] ders[i])
                == Ok::<Anchor, Seq<char>>(anchors(ders)->Ok_0[i]) by {
                if i < before.len() {
                    assert(before[i] == ders[i]);
                }
            }
        } else if anchors(before) is Err {
            let i = choose|i: int| 0 <= i < before.len() && !(trust_anchor(before[i]) is Ok);
            assert(before[i] == ders[i]);
        } else {
            assert(!(trust_anchor(ders[ders.len() - 1]) is Ok));
        }
    }
}

/// A CA bundle replaces the public roots. Where one is given, either it cannot be used and there
/// is no trust at all, or what is trusted is made of its certificates alone, of which there is at
/// least one.
pub proof fn bundle_is_exclusive(bundle: BundleView)
    ensures
        match trust(Some(bundle)) {
            Ok(trust) => {
                &&& certificates(bundle) is Ok
                &&& trust.roots == Some(certificates(bundle)->Ok_0)
                &&& certificates(bundle)->Ok_0.len() > 0
                &&& trust.anchors.len() == certificates(bundle)->Ok_0.len()
                &&& forall|i: int|
                    0 <= i < trust.anchors.len() ==> trust_anchor(certificates(bundle)->Ok_0[i])
                        == Ok::<Anchor, Seq<char>>(#[trigger] trust.anchors[i])
            },
            Err(error) => error is ReadBundle || error is ParseBundle || error is EmptyBundle
                || error is InvalidCertificate,
        },
{
    if certificates(bundle) is Ok {
        anchors_all_or_none(certificates(bundle)->Ok_0);
    }
}

/// A CA bundle is used exactly where its file was read, the text is well-formed, it holds a
/// certificate and each of its certificates makes a trust anchor. One that cannot be used is never
/// passed over in favour of the public roots.
pub proof fn bundle_is_used_or_refused(bundle: BundleView)
    ensures
        trust(Some(bundle)) is Ok <==> {
            &&& bundle is Contents
            &&& pem_certificates(bundle->Contents_0) is Ok
            &&& pem_certificates(bundle->Contents_0)->Ok_0.len() > 0
            &&& forall|i: int|
                0 <= i < pem_certificates(bundle->Contents_0)->Ok_0.len() ==> trust_anchor(
                    #[trigger] pem_certificates(bundle->Contents_0)->Ok_0[i],
                ) is Ok
        },
{
    if certificates(bundle) is Ok {
        anchors_all_or_none(certificates(bundle)->Ok_0);
    }
}

/// Under a CA bundle, exactly the certificates that were read from its text are trusted, all of
/// them and in their order, whatever their number: each by its own anchor.
pub proof fn all_that_was_read_is_trusted(pem: Seq<u8>)
    ensures
        trust(Some(BundleView::Contents(pem))) matches Ok(trust) ==> {
            let read = pem_certificates(pem)->Ok_0;
            &&& pem_certificates(pem) is Ok
            &&& read.len() > 0
            &&& trust.roots == Some(read)
            &&& trust.anchors.len() == read.len()
            &&& forall|i: int|
                0 <= i < read.len() ==> trust_anchor(read[i]) == Ok::<Anchor, Seq<char>>(
                    #[trigger] trust.anchors[i],
                )
        },
        certificates(BundleView::Contents(pem)) matches Ok(ders) ==> pem_certificates(pem) == Ok::<
            Seq<Seq<u8>>,
            Seq<char>,
        >(ders),
{
    bundle_is_exclusive(BundleView::Contents(pem));
}

/// Where certificates do not make trust anchors, the reason is that of the first one that makes
/// none.
pub proof fn first_bad_certificate_is_named(ders: Seq<Seq<u8>>)
    requires
        anchors(ders) is Err,
    ensures
        exists|i: int|
            0 <= i < ders.len() && trust_anchor(#[trigger] ders[i]) == Err::<Anchor, Seq<char>>(
                anchors(ders)->Err_0,
            ) && (forall|j: int| 0 <= j < i ==> trust_anchor(#[trigger] ders[j]) is Ok),
    decreases ders.len(),
{
    let before = ders.drop_last();
    assert(forall|i: int| 0 <= i < before.len() ==> before[i] == ders[i]);
    if anchors(before) is Err {
        first_bad_certificate_is_named(before);
        let i = choose|i: int|
            0 <= i < before.len() && trust_anchor(#[trigger] before[i]) == Err::<Anchor, Seq<char>>(
                anchors(before)->Err_0,
            ) && (forall|j: int| 0 <= j < i ==> trust_anchor(#[trigger] before[j]) is Ok);
        assert(before[i] == ders[i]);
        assert forall|j: int| 0 <= j < i implies trust_anchor(#[trigger] ders[j]) is Ok by {
            assert(before[j] == ders[j]);
        }
    } else {
        anchors_all_or_none(before);
        let last = ders.len() - 1;
        assert(trust_anchor(ders[last]) is Err);
        assert forall|j: int| 0 <= j < last implies trust_anchor(#[trigger] ders[j]) is Ok by {
            assert(before[j] == ders[j]);
        }
    }
}

/// A CA bundle that cannot be used is refused for what is wrong with it: its file, its text, the
/// lack of certificates, or the first certificate that makes no anchor.
pub proof fn bundle_is_refused_for_what_is_wrong(bundle: BundleView)
    ensures
        trust(Some(bundle)) matches Err(error) ==> match bundle {
            BundleView::Unopened { path, cause } => error == (ErrorView::ReadBundle {
                path,
                cause,
            }),
            BundleView::Unread { cause } => error == (ErrorView::ParseBundle { cause }),
            BundleView::Contents(pem) => match pem_certificates(pem) {
                Err(cause) => error == (ErrorView::ParseBundle { cause }),
                Ok(read) => if read.len() == 0 {
                    error == ErrorView::EmptyBundle
                } else {
                    error is InvalidCertificate && exists|i: int|
                        0 <= i < read.len() && trust_anchor(#[trigger] read[i]) == Err::<
                            Anchor,
                            Seq<char>,
                        >(error->InvalidCertificate_cause) && (forall|j: int|
                            0 <= j < i ==> trust_anchor(#[trigger] read[j]) is Ok)
                },
            },
        },
{
    if certificates(bundle) is Ok && trust(Some(bundle)) is Err {
        first_bad_certificate_is_named(certificates(bundle)->Ok_0);
    }
}

/// The value of a CA bundle is all of it: path, cause and every byte of the text; and a list of
/// certificates has the value of each of them.
pub proof fn bundle_values_are_complete(bundle: CaBundle, ders: Vec<Vec<u8>>)
    ensures
        match bundle {
            CaBundle::Unopened { path, cause } => bundle_view(Some(bundle)) == Some(
                BundleView::Unopened { path: path@, cause: cause@ },
            ),
            CaBundle::Unread { cause } => bundle_view(Some(bundle)) == Some(
                BundleView::Unread { cause: cause@ },
            ),
            CaBundle::Contents(pem) => bundle_view(Some(bundle)) == Some(
                BundleView::Contents(pem@),
            ),
        },
        bundle_view(None) is None,
        contents(ders@).len() == ders@.len(),
        forall|i: int| 0 <= i < ders@.len() ==> #[trigger] contents(ders@)[i] == ders@[i]@,
        roots_view(Some(ders)) == Some(contents(ders@)),
        roots_view(None) is None,
{
}

} // verus!
